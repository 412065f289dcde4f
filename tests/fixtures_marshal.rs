use ladspa::{
    c_string, marshal, marshal_fetched, ControlHint, DefaultValue, MarshalError, PluginDescriptor,
    Port, PortDescriptor, PortRangeHint, Properties,
};

fn audio(name: &'static str, desc: PortDescriptor) -> Port {
    Port { name, desc, ..Default::default() }
}

fn control(name: &'static str, default: DefaultValue, lower: f32, upper: f32) -> Port {
    Port {
        name,
        desc: PortDescriptor::ControlInput,
        hint: None,
        default: Some(default),
        lower_bound: Some(lower.to_bits()),
        upper_bound: Some(upper.to_bits()),
    }
}

fn delay_descriptor() -> PluginDescriptor<()> {
    PluginDescriptor {
        unique_id: 400,
        label: "stereo_delay",
        properties: Properties::empty(),
        name: "Stereo Delay",
        maker: "Noah Weninger",
        copyright: "None",
        ports: vec![
            audio("Left Audio In", PortDescriptor::AudioInput),
            audio("Right Audio In", PortDescriptor::AudioInput),
            audio("Left Audio Out", PortDescriptor::AudioOutput),
            audio("Right Audio Out", PortDescriptor::AudioOutput),
            control("Left Delay (seconds)", DefaultValue::Value1, 0.0, 5.0),
            control("Right Delay (seconds)", DefaultValue::Value1, 0.0, 5.0),
            control("Left Dry/Wet", DefaultValue::Middle, 0.0, 1.0),
            control("Right Dry/Wet", DefaultValue::Middle, 0.0, 1.0),
        ],
        new: (),
    }
}

fn ringmod_descriptor() -> PluginDescriptor<()> {
    PluginDescriptor {
        unique_id: 401,
        label: "ring_mod",
        properties: Properties::empty(),
        name: "Mono Ring Modulator",
        maker: "Noah Weninger",
        copyright: "None",
        ports: vec![
            audio("Audio In", PortDescriptor::AudioInput),
            audio("Audio Out", PortDescriptor::AudioOutput),
            Port {
                name: "Frequency",
                desc: PortDescriptor::ControlInput,
                hint: Some(ControlHint::sample_rate().union(ControlHint::logarithmic())),
                default: Some(DefaultValue::Value440),
                lower_bound: Some(0.0f32.to_bits()),
                upper_bound: Some(0.5f32.to_bits()),
            },
        ],
        new: (),
    }
}

fn content(c: &[u8]) -> &[u8] {
    assert_eq!(c.last(), Some(&0u8));
    &c[..c.len() - 1]
}

#[test]
fn marshal_delay_fixture_header() {
    let d = marshal(&delay_descriptor()).unwrap();
    assert_eq!(d.unique_id, 400);
    assert_eq!(d.label, b"stereo_delay\0".to_vec());
    assert_eq!(d.properties, 0);
    assert_eq!(d.name, b"Stereo Delay\0".to_vec());
    assert_eq!(d.maker, b"Noah Weninger\0".to_vec());
    assert_eq!(d.copyright, b"None\0".to_vec());
    assert_eq!(d.port_count, 8);
}

#[test]
fn marshal_delay_fixture_ports() {
    let d = marshal(&delay_descriptor()).unwrap();
    assert_eq!(d.port_descriptors, vec![9, 9, 10, 10, 5, 5, 5, 5]);
    assert_eq!(d.port_names.len(), 8);
    assert_eq!(d.port_range_hints.len(), 8);
    assert_eq!(d.port_names[0], b"Left Audio In\0".to_vec());
    assert_eq!(d.port_names[7], b"Right Dry/Wet\0".to_vec());
    let none = PortRangeHint { hint_descriptor: 0, lower_bound: 0, upper_bound: 0 };
    assert_eq!(d.port_range_hints[0], none);
    assert_eq!(d.port_range_hints[3], none);
    assert_eq!(
        d.port_range_hints[4],
        PortRangeHint { hint_descriptor: 0x243, lower_bound: 0, upper_bound: 0x40A0_0000 }
    );
    assert_eq!(
        d.port_range_hints[6],
        PortRangeHint { hint_descriptor: 0xC3, lower_bound: 0, upper_bound: 0x3F80_0000 }
    );
}

#[test]
fn marshal_ringmod_fixture() {
    let d = marshal(&ringmod_descriptor()).unwrap();
    assert_eq!(d.unique_id, 401);
    assert_eq!(d.label, b"ring_mod\0".to_vec());
    assert_eq!(d.port_count, 3);
    assert_eq!(d.port_descriptors, vec![9, 10, 5]);
    assert_eq!(
        d.port_range_hints[2],
        PortRangeHint { hint_descriptor: 0x2DB, lower_bound: 0, upper_bound: 0x3F00_0000 }
    );
}

#[test]
fn marshal_round_trip_reads_back_every_field() {
    let desc = ringmod_descriptor();
    let d = marshal(&desc).unwrap();
    assert_eq!(content(&d.label), desc.label.as_bytes());
    assert_eq!(content(&d.name), desc.name.as_bytes());
    assert_eq!(content(&d.maker), desc.maker.as_bytes());
    assert_eq!(content(&d.copyright), desc.copyright.as_bytes());
    for (i, p) in desc.ports.iter().enumerate() {
        let h = &d.port_range_hints[i];
        assert_eq!(content(&d.port_names[i]), p.name.as_bytes());
        assert_eq!(PortDescriptor::from_bits(d.port_descriptors[i]), Some(p.desc));
        assert_eq!(h.lower(), p.lower_bound);
        assert_eq!(h.upper(), p.upper_bound);
        assert_eq!(h.default_value(), p.default);
        assert_eq!(h.flags(), p.hint.unwrap_or(ControlHint::empty()));
    }
    let freq = &d.port_range_hints[2];
    assert_eq!(freq.upper().map(f32::from_bits), Some(0.5));
    assert_eq!(freq.flags().bits(), 0x18);
}

#[test]
fn bounded_bits_follow_present_bounds() {
    let port = Port {
        name: "Gain",
        desc: PortDescriptor::ControlInput,
        hint: Some(ControlHint::integer()),
        default: None,
        lower_bound: None,
        upper_bound: Some(7.0f32.to_bits()),
    };
    let h = PortRangeHint::from_port(&port);
    assert_eq!(h.hint_descriptor, 0x20 | 0x2);
    assert_eq!(h.lower_bound, 0);
    assert_eq!(h.lower(), None);
    assert_eq!(h.upper(), Some(7.0f32.to_bits()));
}

#[test]
fn zero_bound_is_still_a_bound() {
    let port = Port {
        name: "Level",
        desc: PortDescriptor::ControlOutput,
        lower_bound: Some(0),
        ..Default::default()
    };
    let h = PortRangeHint::from_port(&port);
    assert_eq!(h.hint_descriptor, 0x1);
    assert_eq!(h.lower(), Some(0));
    assert_eq!(h.upper(), None);
}

#[test]
fn unflagged_bound_values_are_ignored_on_read() {
    let h = PortRangeHint { hint_descriptor: 0x40, lower_bound: 5, upper_bound: 6 };
    assert_eq!(h.lower(), None);
    assert_eq!(h.upper(), None);
    assert_eq!(h.default_value(), Some(DefaultValue::Minimum));
}

#[test]
fn nul_in_label_is_refused() {
    let mut desc = delay_descriptor();
    desc.label = "stereo\0delay";
    desc.name = "Stereo\0Delay";
    assert_eq!(marshal(&desc).err(), Some(MarshalError::NulInLabel));
}

#[test]
fn nul_in_name_is_refused() {
    let mut desc = delay_descriptor();
    desc.name = "Stereo\0Delay";
    desc.maker = "\0";
    assert_eq!(marshal(&desc).err(), Some(MarshalError::NulInName));
}

#[test]
fn nul_in_maker_is_refused() {
    let mut desc = delay_descriptor();
    desc.maker = "Noah\0";
    assert_eq!(marshal(&desc).err(), Some(MarshalError::NulInMaker));
}

#[test]
fn nul_in_copyright_is_refused() {
    let mut desc = delay_descriptor();
    desc.copyright = "\0None";
    assert_eq!(marshal(&desc).err(), Some(MarshalError::NulInCopyright));
}

#[test]
fn first_port_name_with_nul_is_reported() {
    let mut desc = delay_descriptor();
    desc.ports[5].name = "Right\0Delay";
    desc.ports[6].name = "Left\0Dry";
    assert_eq!(marshal(&desc).err(), Some(MarshalError::NulInPortName(5)));
}

#[test]
fn c_string_frames_bytes() {
    assert_eq!(c_string("abc"), Some(b"abc\0".to_vec()));
    assert_eq!(c_string(""), Some(vec![0u8]));
    assert_eq!(c_string("\u{e9}"), Some(vec![0xC3, 0xA9, 0]));
    assert_eq!(c_string("a\0b"), None);
}

#[test]
fn marshal_fetched_declines_missing_or_bad() {
    assert!(marshal_fetched::<()>(None).is_none());
    let mut bad = delay_descriptor();
    bad.ports[0].name = "\0";
    assert!(marshal_fetched(Some(bad)).is_none());
    let (d, desc) = marshal_fetched(Some(ringmod_descriptor())).unwrap();
    assert_eq!(d.unique_id, 401);
    assert_eq!(desc.label, "ring_mod");
    assert_eq!(d.port_count as usize, desc.ports.len());
}

#[test]
fn empty_port_list_marshals() {
    let mut desc = ringmod_descriptor();
    desc.ports = Vec::new();
    desc.properties = Properties::realtime().union(Properties::hard_realtime_capable());
    let d = marshal(&desc).unwrap();
    assert_eq!(d.port_count, 0);
    assert!(d.port_descriptors.is_empty());
    assert!(d.port_names.is_empty());
    assert!(d.port_range_hints.is_empty());
    assert_eq!(d.properties, 5);
}
