use gel_protocol::descriptors::{Descriptor, DescriptorContext, ProtocolVersion, TypePos};
use gel_protocol::enum_derive::{check_enum_descriptor, decode_enum_variant, enum_branches, VariantInfo};
use gel_protocol::errors::{ArgError, DecodeError};
use gel_protocol::model::Uuid;

fn unit(name: &str, rename: Option<&str>) -> VariantInfo {
    VariantInfo { name: name.to_string(), rename: rename.map(|r| r.to_string()), is_unit: true }
}

#[test]
fn branches_use_renames() {
    let vs = vec![unit("Red", None), unit("Green", Some("green"))];
    let b = enum_branches(&vs).unwrap();
    assert_eq!(b, vec![b"Red".to_vec(), b"green".to_vec()]);
    assert_eq!(decode_enum_variant(&b, b"green"), Ok(1));
    assert_eq!(decode_enum_variant(&b, b"Red"), Ok(0));
    assert_eq!(decode_enum_variant(&b, b"Green"), Err(DecodeError::ExtraEnumValue));
}

#[test]
fn variants_with_fields_are_refused() {
    let vs = vec![
        unit("A", None),
        VariantInfo { name: "B".to_string(), rename: None, is_unit: false },
        VariantInfo { name: "C".to_string(), rename: None, is_unit: false },
    ];
    assert_eq!(enum_branches(&vs), Err(1));
}

#[test]
fn enum_descriptor_must_be_an_enumeration() {
    let c = DescriptorContext {
        proto: ProtocolVersion { major_ver: 2, minor_ver: 0 },
        descriptors: vec![
            Descriptor::Enumeration { id: Uuid(1), members: vec![] },
            Descriptor::Other { id: Uuid(2) },
        ],
    };
    assert_eq!(check_enum_descriptor(&c, TypePos(0)), Ok(()));
    assert_eq!(
        check_enum_descriptor(&c, TypePos(1)),
        Err(ArgError::WrongType { found: 1, expected: "str" })
    );
    assert_eq!(check_enum_descriptor(&c, TypePos(2)), Err(ArgError::InvalidTypePos { pos: 2 }));
}
