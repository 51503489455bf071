use kanden::generated::constants::constants_by_id;
use kanden::protocol::arm::Arm;
use kanden::protocol::either::{Either, Side};
use kanden::protocol::lpvec::{frame, parse_head, unpack, Head, Unpacked};
use kanden::protocol::waypoint::WaypointIcon;
use kanden::registry::dimension_type::{
    CardinalLightType, DimensionEffects, DimensionTypeId, MonsterSpawnLightLevel, Skybox,
};
use kanden::registry::environment_attribute::BooleanIntRepr;
use kanden::entity::activity::Activity;

#[test]
fn either_compares_by_side_and_value() {
    let left: Either<u8, bool> = Either::Left(1);
    assert!(left == Either::Left(1));
    assert!(left != Either::Left(2));
    assert!(left != Either::Right(true));
    assert!(Either::<u8, bool>::Right(true) == Either::Right(true));
    assert!(left.clone() == left);
    assert!(left.is_left() && !left.is_right());
}

#[test]
fn either_reads_its_side_from_the_first_byte() {
    assert_eq!(Either::<u8, u8>::decode_side(&[]), None);
    assert_eq!(Either::<u8, u8>::decode_side(&[1, 9]), Some((Side::Left, 1)));
    assert_eq!(Either::<u8, u8>::decode_side(&[0, 9]), Some((Side::Right, 1)));
    assert_eq!(Either::<u8, u8>::decode_side(&[2]), Some((Side::Right, 1)));
}

#[test]
fn arm_defaults_to_right() {
    assert_eq!(Arm::default(), Arm::Right);
}

#[test]
fn frame_packs_the_bits() {
    let framed = frame(1, 0, 0x4000, 0x7FFE);
    // scale 1 | y << 18 | z << 33
    let bits: u64 = 1 | (0x4000 << 18) | (0x7FFE << 33);
    assert_eq!(framed.head[0], (bits & 0xFF) as u8);
    assert_eq!(framed.head[1], ((bits >> 8) & 0xFF) as u8);
    assert_eq!(framed.head[2..], (((bits >> 16) & 0xFFFF_FFFF) as u32).to_be_bytes());
    assert_eq!(framed.head, [0x01, 0x00, 0xFF, 0xFD, 0x00, 0x00]);
    assert_eq!(framed.rest, None);
}

#[test]
fn frame_of_a_long_scale_goes_on() {
    let framed = frame(3, 1, 2, 3);
    assert_eq!(framed.rest, None);
    assert_eq!(framed.head[0], 3 | (1 << 3));
    let framed = frame(4, 1, 2, 3);
    assert_eq!(framed.head[0], 4 | (1 << 3));
    assert_eq!(framed.rest, Some(1));
    let framed = frame(1023, 0, 0, 0);
    assert_eq!(framed.head[0], 3 | 4);
    assert_eq!(framed.rest, Some(255));
}

#[test]
fn parse_head_reads_one_or_six_bytes() {
    assert_eq!(parse_head(&[]), None);
    assert_eq!(parse_head(&[0, 1, 2]), Some((Head::Zero, 1)));
    assert_eq!(parse_head(&[1, 2, 3, 4, 5]), None);
    assert_eq!(
        parse_head(&[0x0D, 0x02, 0x03, 0x04, 0x05, 0x06, 0xFF]),
        Some((
            Head::Packed { bits: 0x0304_0506_020D, scale_low: 0x06 & 3, long: true },
            6
        ))
    );
    assert_eq!(
        parse_head(&[0x09, 0, 0, 0, 0, 0]),
        Some((Head::Packed { bits: 9, scale_low: 0, long: false }, 6))
    );
}

#[test]
fn unpack_takes_fifteen_bits_each() {
    let bits: u64 = 1 | (5 << 3) | (0x4000 << 18) | (0x7FFF << 33);
    assert_eq!(
        unpack(bits, 1, None),
        Unpacked { x: 5, y: 0x4000, z: 32766, scale: 1 }
    );
    assert_eq!(unpack(0, 2, Some(1)).scale, 6);
    assert_eq!(unpack(0, 3, Some(-1)).scale, 0x3_FFFF_FFFF);
}

#[test]
fn framed_components_come_back() {
    let framed = frame(2, 100, 20000, 32766);
    let (head, taken) = parse_head(&framed.head).unwrap();
    assert_eq!(taken, 6);
    match head {
        Head::Packed { bits, long, .. } => {
            assert!(!long);
            let vector = unpack(bits, 2, None);
            assert_eq!((vector.x, vector.y, vector.z), (100, 20000, 32766));
        }
        Head::Zero => panic!("the frame is not zero"),
    }
}

#[test]
fn waypoint_color_takes_three_bytes() {
    let icon = WaypointIcon::new("minecraft:default".to_string(), 0x12_3456);
    assert_eq!(icon.get_color(), 0x12_3456);
    assert_eq!(icon.get_style(), "minecraft:default");
    assert_eq!(icon.encode_color(), [0x12, 0x34, 0x56]);
    assert_eq!(WaypointIcon::decode_color(&[0x12, 0x34, 0x56, 0x78]), Some(0x12_3456));
    assert_eq!(WaypointIcon::decode_color(&[0x12, 0x34]), None);
    assert_eq!(WaypointIcon::new(String::new(), 0xFF12_3456).get_color(), 0x12_3456);
    assert_eq!(icon.copy().get_color(), 0x12_3456);
}

#[test]
fn dimension_type_id_is_an_index() {
    let id = DimensionTypeId::new(7);
    assert_eq!(id.get_value(), 7);
    assert_eq!(id.to_index(), 7);
    assert_eq!(DimensionTypeId::from_index(7), id);
    assert_eq!(DimensionTypeId::from_index(0x1_0007), id);
    assert_eq!(DimensionTypeId::default().get_value(), 0);
    assert_eq!(DimensionTypeId::MAX, 65535);
}

#[test]
fn dimension_defaults() {
    assert_eq!(Skybox::default(), Skybox::Nothing);
    assert_eq!(CardinalLightType::default(), CardinalLightType::Default);
    assert_eq!(DimensionEffects::default(), DimensionEffects::Overworld);
    assert_eq!(MonsterSpawnLightLevel::from(7), MonsterSpawnLightLevel::Int(7));
}

#[test]
fn boolean_as_number() {
    assert_eq!(BooleanIntRepr(true).to_int(), 1);
    assert_eq!(BooleanIntRepr(false).to_int(), 0);
    assert_eq!(BooleanIntRepr::from_int(1), BooleanIntRepr(true));
    assert_eq!(BooleanIntRepr::from_int(0), BooleanIntRepr(false));
    assert_eq!(BooleanIntRepr::from_int(2), BooleanIntRepr(false));
    assert_eq!(BooleanIntRepr::default(), BooleanIntRepr(false));
    assert!(BooleanIntRepr(true).get());
}

#[test]
fn activities_have_names() {
    assert_eq!(Activity::Core.name(), "core");
    assert_eq!(Activity::PreRaid.name(), "pre_raid");
    assert_eq!(Activity::AdmireItem.name(), "admire_item");
    assert_eq!(Activity::LaySpawn.name(), "lay_spawn");
}

#[test]
fn constants_are_named_and_sorted_by_id() {
    let entries = vec![
        ("angry_villager".to_string(), 2i64),
        ("block".to_string(), 1),
        ("blockMarker".to_string(), 0),
        ("dust color transition".to_string(), 1),
    ];
    let constants = constants_by_id("ID_", &entries);
    let listed: Vec<(&str, i64)> =
        constants.iter().map(|constant| (constant.name.as_str(), constant.id)).collect();
    assert_eq!(
        listed,
        vec![
            ("ID_BLOCK_MARKER", 0),
            ("ID_BLOCK", 1),
            ("ID_DUST_COLOR_TRANSITION", 1),
            ("ID_ANGRY_VILLAGER", 2),
        ]
    );
    assert!(constants_by_id("", &Vec::new()).is_empty());
    assert_eq!(constants_by_id("", &entries)[0].name, "BLOCK_MARKER");
}
