use geodesie_de_bureau::{
    bbox_path, bbox_search_request_body, candidate_menu, config_directory, fiche_url, find_feature_by_name,
    find_matricule_to_use_from_list, parse_choice, parse_search_results, record_from_features,
    search_request_body, type_complement_with_canex, App, AppEvent, CodeTable, ConfigError,
    Feature, FeatureType, Geometry, GeometryType, HTypeCode, LookupError, NivfReaCode,
    NivfRefEnCode, Properties, RNIdentificationInfos, RepereNivellement, RnActionCode,
    RnEtatCode, RnGPSExploitCode, RnTypeCode, Selection, UnknownCodeError, VoieCoteCode,
    WireValue,
};

fn candidate(cid: u32, name: &str) -> RNIdentificationInfos {
    RNIdentificationInfos { cid, matricule: name.to_string() }
}

fn fragment(entries: &[(u32, &str)]) -> String {
    let mut s = String::from("<ul>");
    for (id, name) in entries {
        s += &format!("<li id=\"{id}\"><span><b>{name}</b></span></li>\n");
    }
    s += "</ul>\n<!-- 0.012 s -->\n";
    s
}

fn fixture_properties(name: &str, cid: i64) -> Properties {
    Properties {
        image_name: "".to_string(),
        rn_type_code: RnTypeCode::from_wire("014").unwrap(),
        nivf_ref_en_code: NivfRefEnCode::from_wire(702400037010140).unwrap(),
        nivf_rea_code: NivfReaCode::from_wire(2).unwrap(),
        nivf_ref_lp_code: 1,
        h_type_code: HTypeCode::from_wire(3).unwrap(),
        rn_etat_code: RnEtatCode::from_wire("E").unwrap(),
        rn_action_code: RnActionCode::from_wire("V").unwrap(),
        rn_voie_cote_code: VoieCoteCode::from_wire("G").unwrap(),
        rn_gps_eploit_code: RnGPSExploitCode::from_wire("N").unwrap(),
        hors_ign: "100063".to_string(),
        departement_code: "31".to_string(),
        rn_cid: cid,
        rn_nom: name.to_string(),
        rn_type_compl: Some("".to_string()),
        insee: "31555".to_string(),
        commune_nom: "Toulouse".to_string(),
        localisation: Some(
            "AU QUARTIER DE GINESTOUS, SUR UN RUISSEAU DE LA RIVE DROITE DE LA GARONNE"
                .to_string(),
        ),
        carte_no: "2043".to_string(),
        voie_suivie: "GARONNE (LA)".to_string(),
        voie_de: Some("LE PONT DE GRENADE".to_string()),
        voie_vers: Some("LE PONT SAINT-MICHEL".to_string()),
        voie_cote: VoieCoteCode::Gauche,
        voie_pk: Some("120,3".to_string()),
        distance: None,
        rn_proche_nom: "".to_string(),
        e: "571.63".to_string(),
        n: "6284.65".to_string(),
        lambda_dms: "".to_string(),
        phi_dms: "".to_string(),
        support: "PONCEAU".to_string(),
        support_partie: Some("MUR EN RETOUR COTE FLEUVE, FACE AMONT".to_string()),
        reper_horiz: Some("A L'AXE".to_string()),
        reper_vertical: Some("".to_string()),
        altitude: "125,719".to_string(),
        altitude_complementaire: "".to_string(),
        trg_annee: "1984".to_string(),
        rn_obs_date: "01/01/1920".to_string(),
        rn_vis_date: "01/01/1920".to_string(),
        remarque: "".to_string(),
        triplet_cid: None,
        geod_info: "".to_string(),
        canex_info: "".to_string(),
        rn_primordial_cid: None,
        sit_no: None,
        ptg_croquis_lettre: "".to_string(),
        sit_info: "".to_string(),
    }
}

fn fixture_feature(name: &str, cid: i64) -> Feature {
    Feature {
        feature_type: FeatureType::from_wire("Feature").unwrap(),
        geometry: Geometry {
            geometry_type: GeometryType::from_wire("Point").unwrap(),
            coordinates: vec!["1.409197".to_string(), "43.649276".to_string()],
        },
        properties: fixture_properties(name, cid),
    }
}

fn expected_record() -> RepereNivellement {
    RepereNivellement {
        matricule: "T'.D.S3 - 50".to_string(),
        cid: 452592,
        fiche_url: "https://geodesie.ign.fr/fiches/index.php?module=e&action=fichepdf&source=gp&rn_cid=452592&geo_cid=0".to_string(),
        systeme_altimetrique: NivfReaCode::NgfIgn1969,
        altitude: "125,719".to_string(),
        altitude_complementaire: "".to_string(),
        altitude_type: HTypeCode::AltitudeNormale,
        derniere_observation: "01/01/1920".to_string(),
        nouveau_calcul: "1984".to_string(),
        derniere_visite: "01/01/1920".to_string(),
        etat: RnEtatCode::BonEtat,
        rn_type: RnTypeCode::RepereCylindriqueDuNivellementGeneral,
        type_complement: Some("".to_string()),
        canex_info: "".to_string(),
        type_complement_avec_canex: "".to_string(),
        longitude: "1.409197".to_string(),
        latitude: "43.649276".to_string(),
        e: "571.63".to_string(),
        n: "6284.65".to_string(),
        departement: "31".to_string(),
        insee: "31555".to_string(),
        commune: "Toulouse".to_string(),
        voie_suivie: "GARONNE (LA)".to_string(),
        voie_de: Some("LE PONT DE GRENADE".to_string()),
        voie_vers: Some("LE PONT SAINT-MICHEL".to_string()),
        voie_cote: VoieCoteCode::Gauche,
        voie_pk: Some("120,3".to_string()),
        distance: None,
        du_repere: "".to_string(),
        localisation: Some(
            "AU QUARTIER DE GINESTOUS, SUR UN RUISSEAU DE LA RIVE DROITE DE LA GARONNE"
                .to_string(),
        ),
        support: "PONCEAU".to_string(),
        partie_support: Some("MUR EN RETOUR COTE FLEUVE, FACE AMONT".to_string()),
        reperement_horizontal: Some("A L'AXE".to_string()),
        reperement_vertical: Some("".to_string()),
        hors_ign: "100063".to_string(),
        remarques: "".to_string(),
        exploitabilite_gps: RnGPSExploitCode::Empty,
        geod_info: "".to_string(),
    }
}

#[test]
fn end_to_end_single_candidate_to_record() {
    let query = "T'.D.S3 - 50";
    let text = fragment(&[(452592, "T'.D.S3 - 50")]);
    let candidates = parse_search_results(&text).unwrap();
    assert_eq!(candidates, vec![candidate(452592, "T'.D.S3 - 50")]);
    let chosen = match find_matricule_to_use_from_list(query, &candidates).unwrap() {
        Selection::Chosen(c) => c,
        Selection::Prompt => panic!("a single candidate needs no prompt"),
    };
    assert_eq!(chosen, candidate(452592, "T'.D.S3 - 50"));
    let features = vec![
        fixture_feature("T'.D.S3 - 52", 429495),
        fixture_feature(&chosen.matricule, chosen.cid as i64),
    ];
    let record = record_from_features(features, &chosen.matricule).unwrap();
    assert_eq!(record, expected_record());
    assert_eq!(record.altitude, "125,719");
    assert_eq!(record.altitude_type.label(), "Altitude normale");
    assert_eq!(record.etat.label(), "Bon état");
    assert_eq!(
        record.fiche_url,
        "https://geodesie.ign.fr/fiches/index.php?module=e&action=fichepdf&source=gp&rn_cid=452592&geo_cid=0"
    );
}

#[test]
fn parse_fragment_with_many_entries_keeps_order() {
    let entries = [
        (452592, "T'.D.S3 - 50"),
        (429495, "T'.D.S3 - 52"),
        (108049, "T'.D.S3 - 54"),
        (108050, "T'.D.S3 - 55"),
        (452593, "T'.D.S3 - 56"),
        (338593, "T'.D.S3 - 57 BIS"),
        (429496, "T'.D.S3 - 58"),
        (521727, "T'.D.S3 - 59"),
        (481574, "T'.D.S3 - 5 BIS"),
    ];
    let parsed = parse_search_results(&fragment(&entries)).unwrap();
    let expected: Vec<RNIdentificationInfos> =
        entries.iter().map(|(id, name)| candidate(*id, name)).collect();
    assert_eq!(parsed, expected);
}

#[test]
fn parse_fragment_with_quotes_in_names() {
    let entries = [(540629, "M\".A.K3L3 - 15-I"), (540745, "FM\" - 3-VIII")];
    let parsed = parse_search_results(&fragment(&entries)).unwrap();
    assert_eq!(
        parsed,
        vec![candidate(540629, "M\".A.K3L3 - 15-I"), candidate(540745, "FM\" - 3-VIII")]
    );
}

#[test]
fn parse_fragment_without_comment() {
    let text = "<ul><li id=\"303869\"><span><b>M.AC - 0-VIII</b></span></li></ul>";
    assert_eq!(parse_search_results(text).unwrap(), vec![candidate(303869, "M.AC - 0-VIII")]);
}

#[test]
fn parse_no_result_marker_gives_empty() {
    let text = "<ul><li>Pas de résultat</li></ul>";
    assert_eq!(parse_search_results(text).unwrap(), vec![]);
}

#[test]
fn parse_line_without_separator_is_malformed() {
    let text = "<ul><li id=\"12\"><span><b>A</b></span></li>\nnot an entry</ul>";
    assert_eq!(
        parse_search_results(text),
        Err(LookupError::MalformedEntry("not an entry".to_string()))
    );
}

#[test]
fn parse_non_numeric_id_is_malformed() {
    let text = "<li id=\"12a\"><span><b>A</b></span></li>";
    assert_eq!(
        parse_search_results(text),
        Err(LookupError::MalformedEntry("12a\u{0}A".to_string()))
    );
}

#[test]
fn parse_id_too_large_is_malformed() {
    let text = "<li id=\"4294967296\"><span><b>A</b></span></li>";
    assert!(matches!(parse_search_results(text), Err(LookupError::MalformedEntry(_))));
    let text = "<li id=\"4294967295\"><span><b>A</b></span></li>";
    assert_eq!(parse_search_results(text).unwrap(), vec![candidate(4294967295, "A")]);
}

#[test]
fn parse_empty_fragment_is_malformed() {
    assert_eq!(parse_search_results("  \n "), Err(LookupError::MalformedEntry("".to_string())));
}

#[test]
fn select_from_no_candidate_is_no_match() {
    assert_eq!(find_matricule_to_use_from_list("X", &vec![]), Err(LookupError::NoMatch));
}

#[test]
fn select_single_candidate_whatever_its_name() {
    let v = vec![candidate(7, "B")];
    assert_eq!(find_matricule_to_use_from_list("A", &v), Ok(Selection::Chosen(candidate(7, "B"))));
}

#[test]
fn select_exact_name_among_many_and_repeat() {
    let v = vec![candidate(1, "T'.D.S3 - 5 BIS"), candidate(2, "T'.D.S3 - 5"), candidate(3, "t'.d.s3 - 5")];
    let first = find_matricule_to_use_from_list("T'.D.S3 - 5", &v);
    assert_eq!(first, Ok(Selection::Chosen(candidate(2, "T'.D.S3 - 5"))));
    let again = find_matricule_to_use_from_list("T'.D.S3 - 5", &v);
    assert_eq!(again, first);
}

#[test]
fn select_without_exact_name_prompts() {
    let v = vec![candidate(1, "A1"), candidate(2, "A2")];
    assert_eq!(find_matricule_to_use_from_list("A", &v), Ok(Selection::Prompt));
    let twice = vec![candidate(1, "A"), candidate(2, "A"), candidate(3, "B")];
    assert_eq!(find_matricule_to_use_from_list("A", &twice), Ok(Selection::Prompt));
}

#[test]
fn choice_answers() {
    assert_eq!(parse_choice(" 2 \n", 3), Some(2));
    assert_eq!(parse_choice("0", 3), Some(0));
    assert_eq!(parse_choice("3", 3), None);
    assert_eq!(parse_choice("abc", 3), None);
    assert_eq!(parse_choice("-1", 3), None);
    assert_eq!(parse_choice("", 3), None);
}

#[test]
fn composite_complement_all_four_cases() {
    assert_eq!(type_complement_with_canex(&None, ""), "");
    assert_eq!(type_complement_with_canex(&Some("".to_string()), ""), "");
    assert_eq!(type_complement_with_canex(&None, "CANEX"), "CANEX");
    assert_eq!(type_complement_with_canex(&Some("TYPE".to_string()), ""), "TYPE");
    assert_eq!(type_complement_with_canex(&Some("TYPE".to_string()), "CANEX"), "TYPE, CANEX");
}

#[test]
fn sheet_address() {
    assert_eq!(
        fiche_url(452592),
        "https://geodesie.ign.fr/fiches/index.php?module=e&action=fichepdf&source=gp&rn_cid=452592&geo_cid=0"
    );
    assert_eq!(
        fiche_url(-7),
        "https://geodesie.ign.fr/fiches/index.php?module=e&action=fichepdf&source=gp&rn_cid=-7&geo_cid=0"
    );
    assert_eq!(
        fiche_url(0),
        "https://geodesie.ign.fr/fiches/index.php?module=e&action=fichepdf&source=gp&rn_cid=0&geo_cid=0"
    );
}

#[test]
fn feature_lookup_errors() {
    let fs = vec![fixture_feature("A", 1), fixture_feature("B", 2), fixture_feature("B", 3)];
    assert_eq!(find_feature_by_name(&fs, "A"), Ok(0));
    assert_eq!(find_feature_by_name(&fs, "C"), Err(LookupError::NotFound));
    assert_eq!(find_feature_by_name(&fs, "B"), Err(LookupError::Ambiguous));
    assert_eq!(record_from_features(fs, "B"), Err(LookupError::Ambiguous));
}

#[test]
fn feature_without_two_coordinates_is_refused() {
    let mut f = fixture_feature("A", 1);
    f.geometry.coordinates = vec!["1.0".to_string()];
    assert_eq!(RepereNivellement::from_feature(f), Err(LookupError::MissingCoordinates));
}

#[test]
fn render_full_record() {
    let text = expected_record().render();
    assert!(text.starts_with("=============== Repère de nivellement ===============\n"));
    assert!(text.contains("Matricule : T'.D.S3 - 50\n"));
    assert!(text.contains("Système altimétrique : NGF-IGN 1969\n"));
    assert!(text.contains("Altitude : 125,719m (Altitude normale)\n\n"));
    assert!(text.contains("État : Bon état\n"));
    assert!(text.contains("Type : Repère cylindrique du Nivellement Général\n\n"));
    assert!(text.contains("├╴ de : LE PONT DE GRENADE\n├╴ à : LE PONT SAINT-MICHEL\n├╴ côté : Gauche\n└╴ PK : 120,3\n"));
    assert!(text.contains("Repèrements :\n└╴ horizontal : A L'AXE\n"));
    assert!(!text.contains("vertical"));
    assert!(!text.contains("Remarques"));
    assert!(!text.contains("100063"));
    assert!(!text.contains("Complément"));
    assert!(text.ends_with("\n\n"));
}

#[test]
fn render_omits_absent_fields() {
    let mut r = expected_record();
    r.voie_de = None;
    r.voie_pk = None;
    r.voie_cote = VoieCoteCode::TheAPIDocumentationIsWrong;
    r.partie_support = None;
    r.localisation = None;
    r.reperement_horizontal = None;
    let text = r.render();
    assert!(!text.contains(" de : "));
    assert!(!text.contains("PK"));
    assert!(!text.contains("côté"));
    assert!(!text.contains("Partie du support"));
    assert!(!text.contains("Localisation : "));
    assert!(!text.contains("horizontal"));
    assert!(!text.contains("None"));
    assert!(text.contains("Voie suivie : GARONNE (LA)\n└╴ à : LE PONT SAINT-MICHEL\n\n"));
}

#[test]
fn render_optional_blocks_when_present() {
    let mut r = expected_record();
    r.altitude_complementaire = "125,8".to_string();
    r.type_complement_avec_canex = "TYPE, CANEX".to_string();
    r.distance = Some("0,2".to_string());
    r.du_repere = "T'.D.S3 - 49".to_string();
    r.geod_info = "POINT b".to_string();
    r.reperement_vertical = Some("0,10 M".to_string());
    r.remarques = "NOTE".to_string();
    r.exploitabilite_gps = RnGPSExploitCode::InexploitableParGPS;
    r.hors_ign = "200000".to_string();
    let text = r.render();
    assert!(text.contains("Altitude : 125,8m (Altitude complémentaire)\n"));
    assert!(text.contains("Complément : TYPE, CANEX\n"));
    assert!(text.contains("Distance : 0,2km\n└╴ du repère : T'.D.S3 - 49\n"));
    assert!(text.contains("Support : PONCEAU (POINT b)\n"));
    assert!(text.contains("├╴ horizontal : A L'AXE\n└╴ vertical : 0,10 M\n"));
    assert!(text.contains(
        "\n=== Remarques ===\nRemarques : NOTE\nExploitabilité GPS : Inexploitable par GPS\n\n"
    ));
    assert!(text.ends_with("200000\n\n"));
}

#[test]
fn render_quiet_hors_ign_values() {
    for quiet in ["100001", "100063", ""] {
        let mut r = expected_record();
        r.hors_ign = quiet.to_string();
        let text = r.render();
        assert!(text.ends_with("Repèrements :\n└╴ horizontal : A L'AXE\n\n"));
    }
}

#[test]
fn code_tables_reject_unknown_values() {
    assert_eq!(
        RnEtatCode::from_wire("Z"),
        Err(UnknownCodeError { table: CodeTable::RnEtat, wire: WireValue::Text("Z".to_string()) })
    );
    assert!(RnEtatCode::from_wire("EE").is_err());
    assert!(RnActionCode::from_wire("G").is_err());
    assert!(RnGPSExploitCode::from_wire("").is_err());
    assert!(RnTypeCode::from_wire("002").is_err());
    assert!(RnTypeCode::from_wire("14").is_err());
    assert!(RnTypeCode::from_wire("0x4").is_err());
    assert!(FeatureType::from_wire("Features").is_err());
    assert!(GeometryType::from_wire("Polygon").is_err());
    assert_eq!(
        HTypeCode::from_wire(4),
        Err(UnknownCodeError { table: CodeTable::HType, wire: WireValue::Number(4) })
    );
    assert!(NivfReaCode::from_wire(1).is_err());
    assert!(NivfRefEnCode::from_wire(0).is_err());
}

#[test]
fn code_tables_decode_known_values() {
    assert_eq!(VoieCoteCode::from_wire("V"), Ok(VoieCoteCode::TheAPIDocumentationIsWrong));
    assert_eq!(VoieCoteCode::from_wire("D"), Ok(VoieCoteCode::Droit));
    assert_eq!(RnTypeCode::from_wire("000"), Ok(RnTypeCode::Inconnu));
    assert_eq!(RnTypeCode::from_wire("040"), Ok(RnTypeCode::RepereEnFonteTriangulaire));
    assert_eq!(HTypeCode::from_wire(2), Ok(HTypeCode::AltitudeNormale));
    assert_eq!(HTypeCode::from_wire(44), Ok(HTypeCode::AltitudeOrthometrique));
    assert_eq!(HTypeCode::from_wire(169), Ok(HTypeCode::AltitudeProvisoire));
    assert_eq!(NivfReaCode::from_wire(3), Ok(NivfReaCode::NgfIgn1978));
    assert_eq!(RnTypeCode::RepereSNCF.wire(), "025");
    assert_eq!(RnTypeCode::from_wire(&RnTypeCode::Tube.wire()), Ok(RnTypeCode::Tube));
    assert_eq!(HTypeCode::AltitudeOrthometrique.wire(), 10);
    assert_eq!(RnEtatCode::PresumeDeplace.wire(), "P");
    assert_eq!(RnTypeCode::Borne.label(), "Borne");
    assert_eq!(RnGPSExploitCode::Empty.label(), "");
}

#[test]
fn bbox_path_floors_to_tenths() {
    assert_eq!(bbox_path("1.409197 43.649276|T'.D.S3 - 50\nsecond line").unwrap(), "1.4/43.6");
    assert_eq!(bbox_path("-4.35 48.1|x").unwrap(), "-4.4/48.1");
    assert_eq!(bbox_path("-0.10 7").unwrap(), "-0.1/7.0");
    assert_eq!(bbox_path("12.99|").unwrap(), "12.9");
}

#[test]
fn bbox_path_rejects_non_numbers() {
    assert_eq!(bbox_path("abc 1.0|x"), Err(LookupError::InvalidCoordinate("abc".to_string())));
    assert_eq!(bbox_path("1.0  2.0|x"), Err(LookupError::InvalidCoordinate("".to_string())));
}

#[test]
fn search_bodies() {
    assert_eq!(
        search_request_body("  T’.D.S3 - 50 ").unwrap(),
        "repere_ajax=T'.D.S3 - 50&identifiant_visugeod=identificateur_repere"
    );
    assert_eq!(search_request_body(""), Err(LookupError::EmptyQuery));
    assert_eq!(search_request_body("a|b"), Err(LookupError::QueryWithPipe));
    assert_eq!(
        bbox_search_request_body("T'.D.S3 - 50"),
        "h_recherche=repere|T''.D.S3 - 50&t=france"
    );
}

#[test]
fn config_directories() {
    assert_eq!(config_directory("ios", None), Err(ConfigError::UnsupportedPlatform));
    assert_eq!(config_directory("android", Some("x")), Err(ConfigError::UnsupportedPlatform));
    assert_eq!(
        config_directory("macos", None).unwrap(),
        "~/Library/Preferences/org.jd-develop.geodesie/"
    );
    assert_eq!(
        config_directory("windows", Some("C:\\Users\\a\\AppData")).unwrap(),
        "C:\\Users\\a\\AppData\\jd-develop\\geodesie"
    );
    assert_eq!(config_directory("windows", None), Err(ConfigError::AppDataUnset));
    assert_eq!(config_directory("linux", None).unwrap(), "~/.config/jd-develop/geodesie");
}

#[test]
fn app_events() {
    let mut app = App::new();
    app.handle_events(AppEvent::Decrement);
    assert_eq!(app.counter(), 0);
    app.handle_events(AppEvent::Increment);
    app.handle_events(AppEvent::Increment);
    assert_eq!(app.counter(), 2);
    app.handle_events(AppEvent::Other);
    assert!(!app.should_exit());
    app.handle_events(AppEvent::Quit);
    assert!(app.should_exit());
    assert_eq!(app.counter(), 2);
    assert_eq!(App::default(), App::new());
}

#[test]
fn menu_columns_are_aligned() {
    let v = vec![candidate(7, "AB"), candidate(123, "C")];
    assert_eq!(candidate_menu(&v), "0 : AB (id   7)\n1 : C  (id 123)\n");
    let many: Vec<RNIdentificationInfos> = (0..11).map(|i| candidate(i, "N")).collect();
    let menu = candidate_menu(&many);
    assert!(menu.starts_with("0  : N (id  0)\n"));
    assert!(menu.ends_with("10 : N (id 10)\n"));
    assert_eq!(candidate_menu(&vec![]), "");
}
