//! The decoded bounding-box payload and the normalized benchmark record built
//! from one of its features.
use vstd::prelude::*;

use crate::codes::{
    FeatureType, GeometryType, HTypeCode, NivfReaCode, NivfRefEnCode, RnActionCode, RnEtatCode,
    RnGPSExploitCode, RnTypeCode, VoieCoteCode,
};
use crate::error::LookupError;
use crate::text::{append_signed_decimal, signed_decimal, str_eq};

verus! {

/// A decoded bounding-box answer: a GeoJSON feature collection.
#[derive(Clone, Debug, PartialEq, Eq)]
pub struct BBox {
    pub bbox_type: String,
    pub features: Vec<Feature>,
}

/// One benchmark of a bounding-box answer.
#[derive(Clone, Debug, PartialEq, Eq)]
pub struct Feature {
    pub feature_type: FeatureType,
    pub geometry: Geometry,
    pub properties: Properties,
}

/// Where a benchmark stands: longitude then latitude, each as the decimal text
/// that the service sent.
#[derive(Clone, Debug, PartialEq, Eq)]
pub struct Geometry {
    pub geometry_type: GeometryType,
    pub coordinates: Vec<String>,
}

/// The attributes of one benchmark, each code field decoded through its table.
#[derive(Clone, Debug, PartialEq, Eq)]
pub struct Properties {
    pub image_name: String,
    pub rn_type_code: RnTypeCode,
    pub nivf_ref_en_code: NivfRefEnCode,
    pub nivf_rea_code: NivfReaCode,
    pub nivf_ref_lp_code: i64,
    pub h_type_code: HTypeCode,
    pub rn_etat_code: RnEtatCode,
    pub rn_action_code: RnActionCode,
    pub rn_voie_cote_code: VoieCoteCode,
    pub rn_gps_eploit_code: RnGPSExploitCode,
    pub hors_ign: String,
    pub departement_code: String,
    pub rn_cid: i64,
    pub rn_nom: String,
    pub rn_type_compl: Option<String>,
    pub insee: String,
    pub commune_nom: String,
    pub localisation: Option<String>,
    pub carte_no: String,
    pub voie_suivie: String,
    pub voie_de: Option<String>,
    pub voie_vers: Option<String>,
    pub voie_cote: VoieCoteCode,
    pub voie_pk: Option<String>,
    pub distance: Option<String>,
    pub rn_proche_nom: String,
    pub e: String,
    pub n: String,
    pub lambda_dms: String,
    pub phi_dms: String,
    pub support: String,
    pub support_partie: Option<String>,
    pub reper_horiz: Option<String>,
    pub reper_vertical: Option<String>,
    pub altitude: String,
    pub altitude_complementaire: String,
    pub trg_annee: String,
    pub rn_obs_date: String,
    pub rn_vis_date: String,
    pub remarque: String,
    pub triplet_cid: Option<String>,
    pub geod_info: String,
    pub canex_info: String,
    pub rn_primordial_cid: Option<i64>,
    pub sit_no: Option<String>,
    pub ptg_croquis_lettre: String,
    pub sit_info: String,
}

/// A benchmark as it is shown and kept.
///
/// `fiche_url` and `type_complement_avec_canex` are derived from the other
/// fields when the record is built (see `wf`).
#[derive(Clone, Debug, PartialEq, Eq)]
pub struct RepereNivellement {
    pub matricule: String,
    pub cid: i64,
    pub fiche_url: String,
    pub systeme_altimetrique: NivfReaCode,
    pub altitude: String,
    pub altitude_complementaire: String,
    pub altitude_type: HTypeCode,
    pub derniere_observation: String,
    pub nouveau_calcul: String,
    pub derniere_visite: String,
    pub etat: RnEtatCode,
    pub rn_type: RnTypeCode,
    pub type_complement: Option<String>,
    pub canex_info: String,
    pub type_complement_avec_canex: String,
    pub longitude: String,
    pub latitude: String,
    pub e: String,
    pub n: String,
    pub departement: String,
    pub insee: String,
    pub commune: String,
    pub voie_suivie: String,
    pub voie_de: Option<String>,
    pub voie_vers: Option<String>,
    pub voie_cote: VoieCoteCode,
    pub voie_pk: Option<String>,
    pub distance: Option<String>,
    pub du_repere: String,
    pub localisation: Option<String>,
    pub support: String,
    pub partie_support: Option<String>,
    pub reperement_horizontal: Option<String>,
    pub reperement_vertical: Option<String>,
    pub hors_ign: String,
    pub remarques: String,
    pub exploitabilite_gps: RnGPSExploitCode,
    pub geod_info: String,
}

/// The text of an optional field, empty where it is absent.
pub open spec fn opt_text(o: Option<String>) -> Seq<char> {
    match o {
        Some(s) => s@,
        None => Seq::empty(),
    }
}

/// The address of a benchmark's online sheet.
pub open spec fn fiche_url_spec(cid: int) -> Seq<char> {
    "https://geodesie.ign.fr/fiches/index.php?module=e&action=fichepdf&source=gp&rn_cid="@
        + signed_decimal(cid) + "&geo_cid=0"@
}

/// The type complement and the canex information in one text: empty where both
/// are, the one that is not empty where the other is, else both joined by ", ".
pub open spec fn complement_with_canex(t: Seq<char>, c: Seq<char>) -> Seq<char> {
    if t.len() == 0 && c.len() == 0 {
        Seq::empty()
    } else if t.len() == 0 {
        c
    } else if c.len() == 0 {
        t
    } else {
        t + ", "@ + c
    }
}

/// The address of the online sheet of the benchmark `cid`.
pub fn fiche_url(cid: i64) -> (r: String)
    ensures
        r@ == fiche_url_spec(cid as int),
{
    let mut r = String::from_str(
        "https://geodesie.ign.fr/fiches/index.php?module=e&action=fichepdf&source=gp&rn_cid=",
    );
    append_signed_decimal(&mut r, cid);
    r.append("&geo_cid=0");
    r
}

/// The type complement (absent counts as empty) and the canex information in one
/// text.
pub fn type_complement_with_canex(type_complement: &Option<String>, canex_info: &str) -> (r:
    String)
    ensures
        r@ == complement_with_canex(opt_text(*type_complement), canex_info@),
{
    let t: &str = match type_complement {
        Some(s) => s.as_str(),
        None => "",
    };
    proof {
        reveal_strlit("");
    }
    assert(t@ == opt_text(*type_complement));
    let t_empty = t.is_empty();
    let c_empty = canex_info.is_empty();
    if t_empty && c_empty {
        String::new()
    } else if t_empty {
        String::from_str(canex_info)
    } else if c_empty {
        String::from_str(t)
    } else {
        let mut r = String::from_str(t);
        r.append(", ");
        r.append(canex_info);
        r
    }
}

/// Whether exactly the feature `i` of `fs` has the name `name`.
pub open spec fn only_named(fs: Seq<Feature>, name: Seq<char>, i: int) -> bool {
    &&& 0 <= i < fs.len()
    &&& fs[i].properties.rn_nom@ == name
    &&& forall|j: int| 0 <= j < fs.len() && j != i ==> fs[j].properties.rn_nom@ != name
}

/// Whether some feature of `fs` has the name `name`.
pub open spec fn some_named(fs: Seq<Feature>, name: Seq<char>) -> bool {
    exists|i: int| 0 <= i < fs.len() && fs[i].properties.rn_nom@ == name
}

/// The position of the one feature named `name`.
///
/// No such feature is `NotFound`; more than one is `Ambiguous`: the features
/// would disagree on which benchmark is meant.
pub fn find_feature_by_name(features: &Vec<Feature>, name: &str) -> (r: Result<
    usize,
    LookupError,
>)
    ensures
        r matches Ok(i) ==> only_named(features@, name@, i as int),
        r == Err::<usize, LookupError>(LookupError::NotFound) <==> !some_named(features@, name@),
        r == Err::<usize, LookupError>(LookupError::Ambiguous) <==> (some_named(features@, name@)
            && !exists|i: int| only_named(features@, name@, i)),
        r is Ok || r == Err::<usize, LookupError>(LookupError::NotFound) || r == Err::<
            usize,
            LookupError,
        >(LookupError::Ambiguous),
{
    let ghost fs = features@;
    let n = features.len();
    let mut count: usize = 0;
    let mut found: usize = 0;
    let ghost mut other: int = 0;
    let mut i: usize = 0;
    while i < n
        invariant
            n == fs.len(),
            fs == features@,
            i <= n,
            count <= 2,
            count == 0 ==> forall|j: int| 0 <= j < i ==> fs[j].properties.rn_nom@ != name@,
            count == 1 ==> found < i && fs[found as int].properties.rn_nom@ == name@ && forall|
                j: int,
            | 0 <= j < i && j != found ==> fs[j].properties.rn_nom@ != name@,
            count == 2 ==> found < n && 0 <= other < n && other != found && fs[found as int].properties.rn_nom@
                == name@ && fs[other].properties.rn_nom@ == name@,
        decreases n - i,
    {
        if str_eq(features[i].properties.rn_nom.as_str(), name) {
            if count == 0 {
                found = i;
                count = 1;
            } else if count == 1 {
                proof {
                    other = i as int;
                }
                count = 2;
            }
        }
        i = i + 1;
    }
    if count == 0 {
        Err(LookupError::NotFound)
    } else if count == 1 {
        assert(only_named(fs, name@, found as int));
        Ok(found)
    } else {
        assert(!exists|k: int| only_named(fs, name@, k)) by {
            assert forall|k: int| !only_named(fs, name@, k) by {
                if k != found as int {
                    assert(fs[found as int].properties.rn_nom@ == name@);
                } else {
                    assert(fs[other].properties.rn_nom@ == name@);
                }
            }
        }
        Err(LookupError::Ambiguous)
    }
}

impl RepereNivellement {
    /// The derived fields agree with the fields they are derived from.
    pub open spec fn wf(&self) -> bool {
        &&& self.fiche_url@ == fiche_url_spec(self.cid as int)
        &&& self.type_complement_avec_canex@ == complement_with_canex(
            opt_text(self.type_complement),
            self.canex_info@,
        )
    }

    /// Whether this record is the one built from the feature `f`.
    pub open spec fn describes(&self, f: Feature) -> bool {
        let p = f.properties;
        &&& self.wf()
        &&& f.geometry.coordinates@.len() >= 2
        &&& self.longitude == f.geometry.coordinates@[0]
        &&& self.latitude == f.geometry.coordinates@[1]
        &&& self.matricule == p.rn_nom
        &&& self.cid == p.rn_cid
        &&& self.systeme_altimetrique == p.nivf_rea_code
        &&& self.altitude == p.altitude
        &&& self.altitude_complementaire == p.altitude_complementaire
        &&& self.altitude_type == p.h_type_code
        &&& self.derniere_observation == p.rn_obs_date
        &&& self.nouveau_calcul == p.trg_annee
        &&& self.derniere_visite == p.rn_vis_date
        &&& self.etat == p.rn_etat_code
        &&& self.rn_type == p.rn_type_code
        &&& self.type_complement == p.rn_type_compl
        &&& self.canex_info == p.canex_info
        &&& self.e == p.e
        &&& self.n == p.n
        &&& self.departement == p.departement_code
        &&& self.insee == p.insee
        &&& self.commune == p.commune_nom
        &&& self.voie_suivie == p.voie_suivie
        &&& self.voie_de == p.voie_de
        &&& self.voie_vers == p.voie_vers
        &&& self.voie_cote == p.voie_cote
        &&& self.voie_pk == p.voie_pk
        &&& self.distance == p.distance
        &&& self.du_repere == p.rn_proche_nom
        &&& self.localisation == p.localisation
        &&& self.support == p.support
        &&& self.partie_support == p.support_partie
        &&& self.reperement_horizontal == p.reper_horiz
        &&& self.reperement_vertical == p.reper_vertical
        &&& self.hors_ign == p.hors_ign
        &&& self.remarques == p.remarque
        &&& self.exploitabilite_gps == p.rn_gps_eploit_code
        &&& self.geod_info == p.geod_info
    }

    /// The record of a feature: its fields copied, the sheet address and the
    /// composite complement derived, and its first two coordinates taken as
    /// longitude and latitude. A feature with fewer coordinates is refused.
    pub fn from_feature(feature: Feature) -> (r: Result<Self, LookupError>)
        ensures
            feature.geometry.coordinates@.len() < 2 ==> r == Err::<Self, LookupError>(
                LookupError::MissingCoordinates,
            ),
            feature.geometry.coordinates@.len() >= 2 ==> (r matches Ok(rec) && rec.describes(
                feature,
            )),
    {
        let ghost f = feature;
        let Feature { feature_type: _, geometry, properties: p } = feature;
        let mut coordinates = geometry.coordinates;
        if coordinates.len() < 2 {
            return Err(LookupError::MissingCoordinates);
        }
        let latitude = coordinates.remove(1);
        let longitude = coordinates.remove(0);
        let fiche_url = fiche_url(p.rn_cid);
        let type_complement_avec_canex = type_complement_with_canex(
            &p.rn_type_compl,
            p.canex_info.as_str(),
        );
        let rec = RepereNivellement {
            matricule: p.rn_nom,
            cid: p.rn_cid,
            fiche_url,
            systeme_altimetrique: p.nivf_rea_code,
            altitude: p.altitude,
            altitude_complementaire: p.altitude_complementaire,
            altitude_type: p.h_type_code,
            derniere_observation: p.rn_obs_date,
            nouveau_calcul: p.trg_annee,
            derniere_visite: p.rn_vis_date,
            etat: p.rn_etat_code,
            rn_type: p.rn_type_code,
            type_complement: p.rn_type_compl,
            canex_info: p.canex_info,
            type_complement_avec_canex,
            longitude,
            latitude,
            e: p.e,
            n: p.n,
            departement: p.departement_code,
            insee: p.insee,
            commune: p.commune_nom,
            voie_suivie: p.voie_suivie,
            voie_de: p.voie_de,
            voie_vers: p.voie_vers,
            voie_cote: p.voie_cote,
            voie_pk: p.voie_pk,
            distance: p.distance,
            du_repere: p.rn_proche_nom,
            localisation: p.localisation,
            support: p.support,
            partie_support: p.support_partie,
            reperement_horizontal: p.reper_horiz,
            reperement_vertical: p.reper_vertical,
            hors_ign: p.hors_ign,
            remarques: p.remarque,
            exploitabilite_gps: p.rn_gps_eploit_code,
            geod_info: p.geod_info,
        };
        assert(rec.describes(f));
        Ok(rec)
    }
}

/// The record of the one feature of `features` named `name`.
///
/// The errors are those of `find_feature_by_name`, then that of `from_feature`.
pub fn record_from_features(features: Vec<Feature>, name: &str) -> (r: Result<
    RepereNivellement,
    LookupError,
>)
    ensures
        r == Err::<RepereNivellement, LookupError>(LookupError::NotFound) <==> !some_named(
            features@,
            name@,
        ),
        r == Err::<RepereNivellement, LookupError>(LookupError::Ambiguous) <==> (some_named(
            features@,
            name@,
        ) && !exists|i: int| only_named(features@, name@, i)),
        forall|i: int|
            only_named(features@, name@, i) ==> {
                &&& features@[i].geometry.coordinates@.len() < 2 ==> r == Err::<
                    RepereNivellement,
                    LookupError,
                >(LookupError::MissingCoordinates)
                &&& features@[i].geometry.coordinates@.len() >= 2 ==> (r matches Ok(rec)
                    && rec.describes(features@[i]))
            },
{
    let ghost fs = features@;
    let mut features = features;
    match find_feature_by_name(&features, name) {
        Ok(i) => {
            let f = features.remove(i);
            let r = RepereNivellement::from_feature(f);
            assert forall|k: int| only_named(fs, name@, k) implies k == i by {
                assert(fs[i as int].properties.rn_nom@ == name@);
            }
            assert(some_named(fs, name@)) by {
                assert(fs[i as int].properties.rn_nom@ == name@);
            }
            r
        },
        Err(e) => Err(e),
    }
}

} // verus!
