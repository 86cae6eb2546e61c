use abi_conflicts::selector::{get_method_id, selector_from_digest};
use abi_conflicts::signature::{canonical_signature, get_method_signature, MethodEntry, Param};

fn plain(ty: &str) -> Param {
    Param { ty: ty.to_string(), components: None }
}

fn tuple(components: &[&str]) -> Param {
    Param {
        ty: "tuple".to_string(),
        components: Some(components.iter().map(|c| c.to_string()).collect()),
    }
}

#[test]
fn signature_expands_one_level_tuple() {
    let inputs = vec![plain("uint256"), tuple(&["address", "bool"])];
    assert_eq!(canonical_signature("f", &inputs).unwrap(), "f(uint256,(address,bool))");
}

#[test]
fn signature_without_inputs() {
    assert_eq!(canonical_signature("g", &vec![]).unwrap(), "g()");
}

#[test]
fn signature_keeps_nested_tuple_word() {
    let inputs = vec![tuple(&["uint8", "tuple"]), plain("bytes32")];
    assert_eq!(canonical_signature("h", &inputs).unwrap(), "h((uint8,tuple),bytes32)");
}

#[test]
fn signature_of_empty_tuple() {
    let inputs = vec![tuple(&[])];
    assert_eq!(canonical_signature("e", &inputs).unwrap(), "e(())");
}

#[test]
fn signature_needs_tuple_components() {
    let inputs = vec![plain("uint256"), plain("tuple")];
    assert!(canonical_signature("f", &inputs).is_none());
}

#[test]
fn entry_signature_needs_name_and_inputs() {
    let mut e = MethodEntry {
        name: Some("transfer".to_string()),
        entry_type: Some("function".to_string()),
        inputs: Some(vec![plain("address"), plain("uint256")]),
    };
    assert_eq!(get_method_signature(&e).unwrap(), "transfer(address,uint256)");
    e.inputs = None;
    assert!(get_method_signature(&e).is_none());
    e.inputs = Some(vec![]);
    e.name = None;
    assert!(get_method_signature(&e).is_none());
}

#[test]
fn keccak_selectors() {
    assert_eq!(get_method_id("transfer(address,uint256)", false), 0xa9059cbb);
    assert_eq!(get_method_id("balanceOf(address)", false), 0x70a08231);
    assert_eq!(get_method_id("withdraw()", false), 0x3ccfd60b);
}

#[test]
fn sm3_selector() {
    assert_eq!(get_method_id("abc", true), 0x66c7f0f4);
}

#[test]
fn selector_is_deterministic() {
    let s = "f(uint256,(address,bool))";
    assert_eq!(get_method_id(s, false), get_method_id(s, false));
    assert_eq!(get_method_id(s, true), get_method_id(s, true));
}

#[test]
fn modes_give_different_selectors() {
    assert_ne!(get_method_id("withdraw()", false), get_method_id("withdraw()", true));
    assert_ne!(get_method_id("abc", false), get_method_id("abc", true));
}

#[test]
fn selector_reads_big_endian() {
    assert_eq!(selector_from_digest(&[0xaa, 0xbb, 0xcc, 0xdd, 0x01]), 0xaabbccdd);
    assert_eq!(selector_from_digest(&[0, 0, 0, 1]), 1);
}
