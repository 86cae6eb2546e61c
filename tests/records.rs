use abi_conflicts::loader::{parse_conflict_info, parse_row, LoadError, RowError};
use abi_conflicts::record::{
    environment_from_token, records_to_json, ConflictInfo, ConflictType, EnvironmentType,
};
use abi_conflicts::text::{parse_u32_radix, push_decimal, same_text, trim_hex_prefixes};

fn row(fields: &[&str]) -> Vec<String> {
    fields.iter().map(|f| f.to_string()).collect()
}

#[test]
fn kind_and_environment_codes() {
    assert_eq!(ConflictType::All.code(), 0);
    assert_eq!(ConflictType::Len.code(), 1);
    assert_eq!(ConflictType::Env.code(), 2);
    assert_eq!(ConflictType::Var.code(), 3);
    assert_eq!(ConflictType::Const.code(), 4);
    assert_eq!(ConflictType::NoConflict.code(), 5);
    assert_eq!(EnvironmentType::Caller.code(), 0);
    assert_eq!(EnvironmentType::Address.code(), 4);
    assert_eq!(EnvironmentType::Unknown.code(), 5);
}

#[test]
fn environment_tokens() {
    assert_eq!(environment_from_token("CALLER"), EnvironmentType::Caller);
    assert_eq!(environment_from_token("ORIGIN"), EnvironmentType::Origin);
    assert_eq!(environment_from_token("TIMESTAMP"), EnvironmentType::Now);
    assert_eq!(environment_from_token("NUMBER"), EnvironmentType::BlockNumber);
    assert_eq!(environment_from_token("ADDRESS"), EnvironmentType::Address);
    assert_eq!(environment_from_token("GASPRICE"), EnvironmentType::Unknown);
    assert_eq!(environment_from_token("caller"), EnvironmentType::Unknown);
}

#[test]
fn numerals() {
    assert_eq!(parse_u32_radix("aabbccdd", 16), Some(0xaabbccdd));
    assert_eq!(parse_u32_radix("FFFFFFFF", 16), Some(u32::MAX));
    assert_eq!(parse_u32_radix("100000000", 16), None);
    assert_eq!(parse_u32_radix("+12", 10), Some(12));
    assert_eq!(parse_u32_radix("+", 10), None);
    assert_eq!(parse_u32_radix("", 10), None);
    assert_eq!(parse_u32_radix("-1", 10), None);
    assert_eq!(parse_u32_radix("1a", 10), None);
    assert_eq!(parse_u32_radix("4294967296", 10), None);
    assert_eq!(parse_u32_radix("4294967295", 10), Some(u32::MAX));
    assert_eq!(trim_hex_prefixes("0x0x12"), "12");
    assert_eq!(trim_hex_prefixes("12"), "12");
    assert_eq!(trim_hex_prefixes("0X12"), "0X12");
    let mut s = String::from("v=");
    push_decimal(&mut s, 4096);
    assert_eq!(s, "v=4096");
    assert!(same_text("abc", "abc"));
    assert!(!same_text("abc", "abd"));
}

#[test]
fn env_row_record() {
    let r = parse_row(ConflictType::Env, &row(&["_", "0xaabbccdd", "CALLER", "slot is 0x7"])).unwrap();
    assert_eq!(r.kind, ConflictType::Env);
    assert_eq!(r.selector, 0xaabbccdd);
    assert_eq!(r.slot, "7");
    assert_eq!(r.value, Some(0));
    assert_eq!(records_to_json(&vec![r]), r#"[{"kind":2,"slot":"7","value":0}]"#);
}

#[test]
fn unknown_environment_is_kept() {
    let r = parse_row(ConflictType::Env, &row(&["_", "0x1", "GAS", "at 0x42 and 0x9"])).unwrap();
    assert_eq!(r.value, Some(5));
    assert_eq!(r.slot, "42");
}

#[test]
fn var_row_record() {
    let r = parse_row(ConflictType::Var, &row(&["_", "0x10", "3", "x 0x12"])).unwrap();
    assert_eq!(r.kind, ConflictType::Var);
    assert_eq!(r.selector, 16);
    assert_eq!(r.value, Some(3));
    assert_eq!(r.slot, "12");
}

#[test]
fn const_and_none_rows() {
    let c = parse_row(ConflictType::Const, &row(&["_", "0xff", "5"])).unwrap();
    assert_eq!((c.kind, c.selector, c.slot.as_str(), c.value), (ConflictType::Const, 255, "5", None));
    let n = parse_row(ConflictType::NoConflict, &row(&["0x01020304"])).unwrap();
    assert_eq!((n.kind, n.selector, n.slot.as_str(), n.value), (ConflictType::NoConflict, 0x01020304, "", None));
}

#[test]
fn row_errors() {
    assert_eq!(parse_row(ConflictType::Env, &row(&["_", "0x1", "CALLER"])).unwrap_err(), RowError::MissingColumn);
    assert_eq!(parse_row(ConflictType::Env, &row(&["_", "0xzz", "CALLER", "0x1"])).unwrap_err(), RowError::BadSelector);
    assert_eq!(parse_row(ConflictType::Var, &row(&["_", "0x1", "0x2", "0x1"])).unwrap_err(), RowError::BadValue);
    assert_eq!(parse_row(ConflictType::Var, &row(&["_", "0x1", "2", "no slot"])).unwrap_err(), RowError::MissingSlot);
    assert_eq!(parse_row(ConflictType::NoConflict, &row(&[])).unwrap_err(), RowError::MissingColumn);
}

#[test]
fn value_key_only_for_env_and_var() {
    let recs = vec![
        ConflictInfo { kind: ConflictType::Var, selector: 1, slot: "3".to_string(), value: Some(2) },
        ConflictInfo { kind: ConflictType::Const, selector: 1, slot: "4".to_string(), value: None },
        ConflictInfo { kind: ConflictType::NoConflict, selector: 1, slot: String::new(), value: None },
    ];
    assert_eq!(
        records_to_json(&recs),
        r#"[{"kind":3,"slot":"3","value":2},{"kind":4,"slot":"4"},{"kind":5,"slot":""}]"#
    );
    assert_eq!(records_to_json(&vec![]), "[]");
}

#[test]
fn slot_text_is_escaped() {
    let recs = vec![ConflictInfo { kind: ConflictType::Const, selector: 1, slot: "a\"b".to_string(), value: None }];
    assert_eq!(records_to_json(&recs), r#"[{"kind":4,"slot":"a\"b"}]"#);
}

#[test]
fn load_in_file_order() {
    let recs = parse_conflict_info(
        "_\t0xaabbccdd\tCALLER\tslot is 0x7\n_\t0x1\tORIGIN\t0x8\n",
        "_\t0x2\t1\tword 0x9\n",
        "_\t0x3\t10\n",
        "0x4\n",
    )
    .unwrap();
    let got: Vec<(ConflictType, u32, String, Option<u32>)> =
        recs.iter().map(|r| (r.kind, r.selector, r.slot.clone(), r.value)).collect();
    assert_eq!(
        got,
        vec![
            (ConflictType::Env, 0xaabbccdd, "7".to_string(), Some(0)),
            (ConflictType::Env, 1, "8".to_string(), Some(1)),
            (ConflictType::Var, 2, "9".to_string(), Some(1)),
            (ConflictType::Const, 3, "10".to_string(), None),
            (ConflictType::NoConflict, 4, String::new(), None),
        ]
    );
}

#[test]
fn load_empty_exports() {
    assert!(parse_conflict_info("", "", "", "").unwrap().is_empty());
}

#[test]
fn load_reports_first_bad_row() {
    let err = parse_conflict_info("", "_\t0x2\t1\tword 0x9\n_\t0x2\tx\t0x9\n", "", "0xq\n").unwrap_err();
    assert_eq!(err, LoadError::Row(ConflictType::Var, 1, RowError::BadValue));
}

#[test]
fn load_rejects_ragged_table() {
    let err = parse_conflict_info("", "", "_\t0x3\t10\n_\t0x3\n", "").unwrap_err();
    assert_eq!(err, LoadError::Table(ConflictType::Const));
}
