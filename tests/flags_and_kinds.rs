use ladspa::{ControlHint, DefaultValue, Port, PortDescriptor, Properties};

#[test]
fn port_kind_bits() {
    assert_eq!(PortDescriptor::Invalid.bits(), 0);
    assert_eq!(PortDescriptor::AudioInput.bits(), 9);
    assert_eq!(PortDescriptor::AudioOutput.bits(), 10);
    assert_eq!(PortDescriptor::ControlInput.bits(), 5);
    assert_eq!(PortDescriptor::ControlOutput.bits(), 6);
    assert_eq!(PortDescriptor::from_bits(6), Some(PortDescriptor::ControlOutput));
    assert_eq!(PortDescriptor::from_bits(3), None);
    assert_eq!(PortDescriptor::default(), PortDescriptor::Invalid);
}

#[test]
fn default_value_bits() {
    let all = [
        (DefaultValue::Minimum, 0x40),
        (DefaultValue::Low, 0x80),
        (DefaultValue::Middle, 0xC0),
        (DefaultValue::High, 0x100),
        (DefaultValue::Maximum, 0x140),
        (DefaultValue::Value0, 0x200),
        (DefaultValue::Value1, 0x240),
        (DefaultValue::Value100, 0x280),
        (DefaultValue::Value440, 0x2C0),
    ];
    for (v, bits) in all {
        assert_eq!(v.bits(), bits);
        assert_eq!(DefaultValue::from_bits(bits), Some(v));
    }
    assert_eq!(DefaultValue::from_bits(0), None);
    assert_eq!(DefaultValue::from_bits(0x300), None);
}

#[test]
fn control_hint_flags() {
    assert_eq!(ControlHint::empty().bits(), 0);
    assert_eq!(ControlHint::toggled().bits(), 0x4);
    assert_eq!(ControlHint::sample_rate().bits(), 0x8);
    assert_eq!(ControlHint::logarithmic().bits(), 0x10);
    assert_eq!(ControlHint::integer().bits(), 0x20);
    let both = ControlHint::toggled().union(ControlHint::integer());
    assert_eq!(both.bits(), 0x24);
    assert!(both.contains(ControlHint::integer()));
    assert!(!both.contains(ControlHint::logarithmic()));
    assert_eq!(ControlHint::from_bits(0x24), Some(both));
    assert_eq!(ControlHint::from_bits(0x1), None);
    assert_eq!(ControlHint::from_bits(0x40), None);
}

#[test]
fn property_flags() {
    assert_eq!(Properties::empty().bits(), 0);
    assert_eq!(Properties::realtime().bits(), 1);
    assert_eq!(Properties::inplace_broken().bits(), 2);
    assert_eq!(Properties::hard_realtime_capable().bits(), 4);
    assert_eq!(Properties::from_bits(7).map(|p| p.bits()), Some(7));
    assert_eq!(Properties::from_bits(8), None);
    assert!(Properties::from_bits(3).unwrap().contains(Properties::inplace_broken()));
}

#[test]
fn default_port_is_unset() {
    let p = Port::default();
    assert_eq!(p.name, "");
    assert_eq!(p.desc, PortDescriptor::Invalid);
    assert!(p.hint.is_none() && p.default.is_none());
    assert!(p.lower_bound.is_none() && p.upper_bound.is_none());
}
