//! Lookup of French levelling benchmarks: the parsers of the search service's
//! answers, the code tables of its payload, the choice among candidates, the
//! normalized benchmark record and its text rendering.
pub mod codes;
pub mod config;
pub mod coords;
pub mod error;
pub mod record;
pub mod render;
pub mod search;
pub mod selection;
pub mod text;
pub mod tui;

pub use codes::{
    CodeTable, FeatureType, GeometryType, HTypeCode, NivfReaCode, NivfRefEnCode, RnActionCode,
    RnEtatCode, RnGPSExploitCode, RnTypeCode, UnknownCodeError, VoieCoteCode, WireValue,
};
pub use config::{config_directory, ConfigError};
pub use coords::bbox_path;
pub use error::LookupError;
pub use record::{
    fiche_url, find_feature_by_name, record_from_features, type_complement_with_canex, BBox,
    Feature, Geometry, Properties, RepereNivellement,
};
pub use search::{
    bbox_search_request_body, parse_search_results, search_request_body, RNIdentificationInfos,
};
pub use selection::{candidate_menu, find_matricule_to_use_from_list, parse_choice, Selection};
pub use tui::{App, AppEvent, Identified};
