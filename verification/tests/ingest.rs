use ecu_shenanigans::error::Error;
use ecu_shenanigans::platform::amf_edc15p::channels::channel;
use ecu_shenanigans::ingest::canonicalize::{build_column_map, canonical_name, groups_present};
use ecu_shenanigans::ingest::dtc::{is_obd_code, parse_dtc_text, sidecar_path_for, sidecar_path_from_parts};
use ecu_shenanigans::ingest::vcds::{
    clean_number, find_data_header_row, has_required_groups, is_eu_locale, is_nnn_k, looks_like_vcds,
    missing_groups_warning, missing_required_groups, parse_vcds_table, sniff_delimiter, split_rows,
};

fn strings(v: &[&str]) -> Vec<String> {
    v.iter().map(|s| s.to_string()).collect()
}

#[test]
fn canonical_lookup_works() {
    assert_eq!(canonical_name("001-1"), Some("rpm"));
    assert_eq!(canonical_name("999-9"), None);
}

#[test]
fn duplicates_get_alt_suffix() {
    let ids = vec!["001-1".to_string(), "003-1".to_string(), "011-1".to_string()];
    let (cols, _) = build_column_map(&ids);
    assert_eq!(cols[0].canonical, "rpm");
    assert_eq!(cols[1].canonical, "rpm__alt_003");
    assert_eq!(cols[2].canonical, "rpm__alt_011");
}

#[test]
fn unmapped_returned_separately() {
    let ids = vec!["001-1".to_string(), "777-9".to_string()];
    let (cols, un) = build_column_map(&ids);
    assert_eq!(cols.len(), 1);
    assert_eq!(un, vec!["777-9".to_string()]);
}

#[test]
fn groups_present_extracts_prefixes() {
    let ids = vec![
        "001-1".to_string(), "001-2".to_string(),
        "011-1".to_string(), "011-4".to_string(),
    ];
    let g = groups_present(&ids);
    assert_eq!(g.iter().cloned().collect::<Vec<_>>(), vec!["001", "011"]);
}

#[test]
fn groups_present_sorts_and_dedups() {
    let ids = strings(&["011-2", "003-1", "011-1", "001-4", "003-3"]);
    assert_eq!(groups_present(&ids), vec!["001", "003", "011"]);
    assert!(groups_present(&[]).is_empty());
}

#[test]
fn column_map_keeps_first_and_names_by_group() {
    let ids = strings(&["003-2", "031-2", "999-1", "001-4", "004-3"]);
    let (cols, un) = build_column_map(&ids);
    let names: Vec<&str> = cols.iter().map(|c| c.canonical.as_str()).collect();
    assert_eq!(names, vec!["maf_spec", "maf_spec__alt_031", "coolant_c", "coolant_c__alt_004"]);
    assert_eq!(cols[1].gfid, "031-2");
    assert_eq!(un, vec!["999-1"]);
}

#[test]
fn vehicle_speed_canonicalizer_routes_005_3() {
    assert_eq!(canonical_name("005-3"), Some("vehicle_speed"));
}

#[test]
fn no_canonical_mapping_to_tps_pct() {
    for nnn_k in [
        "001-1", "001-2", "001-3", "001-4",
        "003-1", "003-2", "003-3", "003-4",
        "004-1", "004-2", "004-3", "004-4",
        "005-1", "005-2", "005-3",
        "008-1", "008-2", "008-3", "008-4",
        "010-1", "010-2", "010-3", "010-4",
        "011-1", "011-2", "011-3", "011-4",
        "013-1", "013-2", "013-3", "013-4",
        "015-1", "015-2", "015-3",
        "020-1", "020-2", "020-3", "020-4",
        "031-2", "031-3",
    ] {
        if let Some(name) = canonical_name(nnn_k) {
            assert_ne!(name, "tps_pct", "{nnn_k} must not canonicalise to tps_pct");
        }
    }
}

#[test]
fn canonicalizer_emits_only_registered_channels() {
    for g in 0..100u32 {
        for f in 1..5u32 {
            let id = format!("{g:03}-{f}");
            if let Some(name) = canonical_name(&id) {
                assert!(channel(name).is_some(), "{id} maps to unregistered {name}");
            }
        }
    }
    assert_eq!(canonical_name("001-3"), None);
    assert_eq!(canonical_name("004-4"), None);
    assert_eq!(canonical_name("010-1"), None);
}

#[test]
fn distinct_ids_give_distinct_column_names() {
    let mut ids: Vec<String> = Vec::new();
    for g in 0..40u32 {
        for f in 1..5u32 {
            ids.push(format!("{g:03}-{f}"));
        }
    }
    let (mapped, unmapped) = build_column_map(&ids);
    assert_eq!(mapped.len() + unmapped.len(), ids.len());
    for a in 0..mapped.len() {
        for b in (a + 1)..mapped.len() {
            assert_ne!(mapped[a].canonical, mapped[b].canonical);
        }
    }
    assert!(mapped.iter().any(|m| m.canonical == "rpm__alt_003"));
    assert!(mapped.iter().any(|m| m.canonical == "maf_spec__alt_031"));
}

// ---------------------------------------------------------------------------
// DTC sidecar
// ---------------------------------------------------------------------------

#[test]
fn parses_one_code_per_line() {
    let txt = "P0401\nP0403\n";
    let codes = parse_dtc_text(txt);
    assert_eq!(codes, vec!["P0401", "P0403"]);
}

#[test]
fn dedupes_and_uppercases() {
    let txt = "p0401\nP0401\nP0403\n";
    let codes = parse_dtc_text(txt);
    assert_eq!(codes, vec!["P0401", "P0403"]);
}

#[test]
fn ignores_comments_and_blank_lines() {
    let txt = "# header line\n\nP0401\n\n# trailing\n";
    let codes = parse_dtc_text(txt);
    assert_eq!(codes, vec!["P0401"]);
}

#[test]
fn ignores_descriptions_after_code() {
    let txt = "P0401  EGR insufficient flow\nP0403\tEGR solenoid circuit\n";
    let codes = parse_dtc_text(txt);
    assert_eq!(codes, vec!["P0401", "P0403"]);
}

#[test]
fn rejects_malformed_codes() {
    let txt = "P040\nXX0401\nP04019\nfoo bar\n";
    let codes = parse_dtc_text(txt);
    assert!(codes.is_empty());
}

#[test]
fn accepts_b_c_u_prefixes() {
    let txt = "B1234\nC5678\nU0100\n";
    let codes = parse_dtc_text(txt);
    assert_eq!(codes, vec!["B1234", "C5678", "U0100"]);
}

#[test]
fn sidecar_path_appends_dtc_txt() {
    let p = sidecar_path_for("/tmp/vcds_amf_post_delete.csv");
    assert_eq!(std::path::Path::new(&p).file_name().unwrap(), "vcds_amf_post_delete.dtc.txt");
}

#[test]
fn parse_dtc_text_basic() {
    let codes = parse_dtc_text("P0401\nP0403\n");
    assert_eq!(codes, vec!["P0401", "P0403"]);
}

#[test]
fn parse_dtc_text_with_descriptions() {
    let txt = "# DTC scan from VCDS\nP0401  EGR insufficient flow\nP0403\tsolenoid\n";
    let codes = parse_dtc_text(txt);
    assert_eq!(codes, vec!["P0401", "P0403"]);
}

#[test]
fn sidecar_path_convention() {
    let p = sidecar_path_for("/tmp/vcds_amf_pre_delete.csv");
    assert_eq!(std::path::Path::new(&p).file_name().unwrap(), "vcds_amf_pre_delete.dtc.txt");
}

#[test]
fn dtc_text_handles_crlf_indent_and_hex_digits() {
    let txt = "  p04ab  note\r\nc5678\r\n\r\n   # comment\r\nP0401";
    assert_eq!(parse_dtc_text(txt), vec!["P04AB", "C5678", "P0401"]);
    assert!(parse_dtc_text("").is_empty());
}

#[test]
fn parsing_codes_back_is_stable() {
    let first = parse_dtc_text("p0403\nb1a2f x\nP0403\n");
    let joined = first.join("\n");
    assert_eq!(parse_dtc_text(&joined), first);
    assert_eq!(first, vec!["P0403", "B1A2F"]);
}

#[test]
fn obd_code_shape() {
    assert!(is_obd_code("P0401"));
    assert!(is_obd_code("u0a0F"));
    assert!(!is_obd_code("X0401"));
    assert!(!is_obd_code("P040G"));
    assert!(!is_obd_code("P04011"));
    assert!(!is_obd_code("Pé401"));
}

#[test]
fn sidecar_path_keeps_directory_and_drops_last_extension() {
    assert_eq!(sidecar_path_for("/tmp/run.2024.csv"), "/tmp/run.2024.dtc.txt");
    assert_eq!(sidecar_path_for("log.csv"), "log.dtc.txt");
    assert_eq!(sidecar_path_for("dir/.hidden"), "dir/.hidden.dtc.txt");
    assert_eq!(sidecar_path_for("noext"), "noext.dtc.txt");
    assert_eq!(sidecar_path_for(""), "log.dtc.txt");
    assert_eq!(sidecar_path_for("/"), "log.dtc.txt");
}

#[test]
fn sidecar_path_from_parts_joins() {
    assert_eq!(sidecar_path_from_parts(Some("/data/"), Some("a.csv")), "/data/a.dtc.txt");
    assert_eq!(sidecar_path_from_parts(Some("/data"), Some("a.csv")), "/data/a.dtc.txt");
    assert_eq!(sidecar_path_from_parts(None, None), "log.dtc.txt");
    assert_eq!(sidecar_path_from_parts(Some(""), Some("b")), "b.dtc.txt");
}

// ---------------------------------------------------------------------------
// VCDS table
// ---------------------------------------------------------------------------

#[test]
fn nnn_k_recognised() {
    assert!(is_nnn_k("001-1"));
    assert!(is_nnn_k("999-12"));
    assert!(!is_nnn_k("01-1"));
    assert!(!is_nnn_k("rpm"));
    assert!(!is_nnn_k("001-"));
    assert!(!is_nnn_k("001"));
}

#[test]
fn nnn_k_trims_and_rejects_letters() {
    assert!(is_nnn_k("  011-4 "));
    assert!(!is_nnn_k("0a1-1"));
    assert!(!is_nnn_k("001-1a"));
    assert!(!is_nnn_k("001--1"));
}

#[test]
fn delimiter_sniff_picks_dominant() {
    assert_eq!(sniff_delimiter("a,b,c,d\n1,2,3,4"), ',');
    assert_eq!(sniff_delimiter("a;b;c;d\n1;2;3;4"), ';');
}

#[test]
fn delimiter_sniff_ties_and_tabs() {
    assert_eq!(sniff_delimiter("a\tb\tc"), '\t');
    assert_eq!(sniff_delimiter("a,b;c"), ',');
    assert_eq!(sniff_delimiter("nothing here"), ',');
    assert_eq!(sniff_delimiter("a;b;c,d\te"), ';');
}

#[test]
fn eu_locale_needs_semicolon_and_decimal_comma() {
    assert!(is_eu_locale("0,25;12:00:00;810;4,1", ';'));
    assert!(!is_eu_locale("0.25;12:00:00;810;4,1", ';'));
    assert!(!is_eu_locale("0,25,810", ','));
    assert!(!is_eu_locale("0;810", ';'));
}

#[test]
fn number_texts_follow_locale() {
    assert_eq!(clean_number(" \"1.234,56\" ", true), Some("1234.56".to_string()));
    assert_eq!(clean_number("3,5", true), Some("3.5".to_string()));
    assert_eq!(clean_number("3.5", false), Some("3.5".to_string()));
    assert_eq!(clean_number("   ", false), None);
    assert_eq!(clean_number("\"\"", false), None);
}

#[test]
fn split_rows_trims_cells_and_drops_blank_lines() {
    let rows = split_rows("a , b,c\n\n  \n1,2\r\n", ',');
    assert_eq!(rows, vec![strings(&["a", "b", "c"]), strings(&["1", "2"])]);
}

#[test]
fn header_row_is_first_with_three_ids() {
    let rows = vec![
        strings(&["Group A:", "001", "002-1"]),
        strings(&["TIME", "STAMP", "001-1", "001-2", "001-3"]),
        strings(&["001-1", "001-2", "001-3"]),
    ];
    assert_eq!(find_data_header_row(&rows).unwrap(), 1);
    let none = vec![strings(&["a", "001-1", "002-2"])];
    assert!(matches!(find_data_header_row(&none), Err(Error::NotVcds)));
}

#[test]
fn parse_table_minimal() {
    let csv = "Group A:,001\n\
               TIME,,Engine speed,Injection quantity,Modulating piston\n\
               s,,RPM,mg/H,V\n\
               TIME,STAMP,001-1,001-2,001-3\n\
               0.00,12:00:00.000,800,4.0,5.0\n\
               0.25,12:00:00.250,810,4.1,5.0\n\
               0.50,12:00:00.500,820,4.2,5.0\n";
    let t = parse_vcds_table(csv).expect("parse ok");
    assert_eq!(t.delimiter, ',');
    assert!(!t.eu);
    assert_eq!(t.header_index, 3);
    assert_eq!(t.time_column, Some(0));
    assert_eq!(t.nnn_positions, vec![2, 3, 4]);
    assert_eq!(t.nnn_ids, strings(&["001-1", "001-2", "001-3"]));
    assert_eq!(t.groups, strings(&["001"]));
    assert_eq!(t.unmapped, strings(&["001-3"]));
    assert_eq!(t.targets, vec![
        Some("rpm".to_string()),
        Some("iq_actual".to_string()),
        None,
    ]);
    assert_eq!(t.units, vec![
        ("001-1".to_string(), "RPM".to_string()),
        ("001-2".to_string(), "mg/H".to_string()),
        ("001-3".to_string(), "V".to_string()),
    ]);
    assert_eq!(t.field_names[1], ("001-2".to_string(), "Injection quantity".to_string()));
    assert_eq!(t.rows.len(), 3);
    assert_eq!(t.rows[1].time, Some("0.25".to_string()));
    assert_eq!(t.rows[1].values, vec![
        Some("810".to_string()),
        Some("4.1".to_string()),
        None,
    ]);
}

#[test]
fn parse_table_eu_locale_with_bom() {
    let csv = "\u{feff}TIME;STAMP;011-1;011-2;011-3;777-1\n\
               0,0;x;1.800;1850,5;1900;9\n\
               0,2;x;;1860,5\n\
               ;\n";
    let t = parse_vcds_table(csv).expect("parse ok");
    assert_eq!(t.delimiter, ';');
    assert!(t.eu);
    assert_eq!(t.header_index, 0);
    assert_eq!(t.unmapped, strings(&["777-1"]));
    assert_eq!(t.targets[3], None);
    assert_eq!(t.rows.len(), 3);
    assert_eq!(t.rows[2].time, None);
    assert_eq!(t.rows[0].time, Some("0.0".to_string()));
    assert_eq!(t.rows[0].values, vec![
        Some("1800".to_string()),
        Some("1850.5".to_string()),
        Some("1900".to_string()),
        None,
    ]);
    assert_eq!(t.rows[1].values, vec![None, Some("1860.5".to_string()), None, None]);
}

#[test]
fn parse_table_rejects_non_vcds_text() {
    assert!(matches!(parse_vcds_table("a,b,c\n1,2,3\n"), Err(Error::NotVcds)));
    assert!(matches!(parse_vcds_table(""), Err(Error::NotVcds)));
}

#[test]
fn required_groups_are_reported_in_order() {
    let groups = strings(&["001", "011"]);
    assert_eq!(missing_required_groups(&groups), vec!["003", "008"]);
    assert!(!has_required_groups(&groups));
    let all = strings(&["003", "008", "011", "020"]);
    assert!(missing_required_groups(&all).is_empty());
    assert!(has_required_groups(&all));
}

#[test]
fn missing_groups_warning_text() {
    let w = missing_groups_warning(&strings(&["001", "011"])).expect("warning");
    assert_eq!(w.code, "MISSING_GROUPS");
    assert_eq!(w.message, "Groups [\"003\", \"008\"] required for pull analysis; some rules will SKIP.");
    assert!(missing_groups_warning(&strings(&["003", "008", "011"])).is_none());
}

#[test]
fn quick_probe_finds_column_ids_in_the_head() {
    assert!(looks_like_vcds("Group A:,001\nTIME,STAMP,001-1,001-2\n"));
    assert!(looks_like_vcds("x;\"011-4\";y"));
    assert!(!looks_like_vcds("a,b,c\n1,2,3\n"));
    let late = format!("{}TIME,001-1\n", "row\n".repeat(8));
    assert!(!looks_like_vcds(&late));
}

#[test]
fn dtc_codes_reparse_to_themselves() {
    let text = "# scan\np0401 EGR flow\n\nP0403\r\nu1234\nP0401 again\nX9999\n";
    let codes = parse_dtc_text(text);
    assert_eq!(codes, vec!["P0401", "P0403", "U1234"]);
    assert_eq!(parse_dtc_text(&codes.join("\n")), codes);
    let none: Vec<String> = parse_dtc_text("");
    assert_eq!(parse_dtc_text(&none.join("\n")), none);
}
