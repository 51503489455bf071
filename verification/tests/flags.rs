use kanden::entity::entity::DataSharedFlags;
use kanden::entity::flags::{get_bit, set_bit};
use kanden::entity::fox;
use kanden::protocol::relative::Relative;

#[test]
fn get_set_flags() {
    let mut flags = DataSharedFlags(0);

    flags.set_on_fire(true);
    let before = flags.clone();
    assert_ne!(flags.0, 0);
    flags.set_on_fire(true);
    assert_eq!(before, flags);
    flags.set_on_fire(false);
    assert_eq!(flags.0, 0);
}

#[test]
fn flags_sit_at_their_offsets() {
    let mut flags = DataSharedFlags(0);
    flags.set_sneaking(true);
    assert_eq!(flags.0, 0b10);
    flags.set_sprinting(true);
    assert_eq!(flags.0, 0b1010);
    flags.set_fall_flying(true);
    assert_eq!(flags.0, 0b1010 | i8::MIN);
    assert!(flags.sneaking() && flags.sprinting() && flags.fall_flying());
    assert!(!flags.on_fire() && !flags.swimming() && !flags.invisible() && !flags.glowing());
    flags.set_sneaking(false);
    assert_eq!(flags.0, 0b1000 | i8::MIN);
    let mut fox_flags = fox::DataFlags(-1);
    fox_flags.set_aggressive(false);
    assert_eq!(fox_flags.0, 0x7F);
    assert!(fox_flags.sleeping());
}

#[test]
fn bits_are_set_one_at_a_time() {
    for offset in 0..8u32 {
        for bits in [0i8, -1, 0x55, -0x56] {
            for on in [false, true] {
                let changed = set_bit(bits, offset, on);
                for other in 0..8u32 {
                    let expected = if other == offset { on } else { get_bit(bits, other) };
                    assert_eq!(get_bit(changed, other), expected);
                }
            }
        }
    }
}

#[test]
fn relative_flags() {
    let flags = Relative::new().with_x(true).with_rot_vel(true);
    assert_eq!(flags.into_bits(), 0x101);
    assert!(flags.x() && flags.rot_vel());
    assert!(!flags.y() && !flags.z() && !flags.y_rot() && !flags.x_rot());
    assert!(!flags.x_vel() && !flags.y_vel() && !flags.z_vel());
    let mut flags = Relative::from_bits(0xFFFF_FFFF);
    flags.set_y(false);
    assert_eq!(flags.into_bits(), 0xFFFF_FFFD);
    assert_eq!(flags.with_y(true), Relative::from_bits(0xFFFF_FFFF));
}
