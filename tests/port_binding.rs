use ladspa::{ConnectError, InstanceState, Lifecycle, Port, PortBinding, PortDescriptor};

fn port(desc: PortDescriptor) -> Port {
    Port { name: "p", desc, ..Default::default() }
}

fn delay_ports() -> Vec<Port> {
    let mut ports = vec![
        port(PortDescriptor::AudioInput),
        port(PortDescriptor::AudioInput),
        port(PortDescriptor::AudioOutput),
        port(PortDescriptor::AudioOutput),
    ];
    for _ in 0..4 {
        ports.push(port(PortDescriptor::ControlInput));
    }
    ports
}

#[test]
fn new_instance_has_nothing_bound() {
    let st = InstanceState::new(&delay_ports());
    assert_eq!(st.port_count(), 8);
    assert!(!st.is_complete());
    assert!(st.ports().is_empty());
    assert_eq!(st.lifecycle(), Lifecycle::Created);
}

#[test]
fn connect_past_declared_ports_is_refused() {
    let mut st = InstanceState::new(&delay_ports());
    assert_eq!(st.connect(8, 0x1000), Err(ConnectError::PortOutOfRange));
    assert_eq!(st.connect(u64::MAX, 0x1000), Err(ConnectError::PortOutOfRange));
    assert!(!st.is_complete());
}

#[test]
fn connect_to_kindless_port_is_refused() {
    let mut st = InstanceState::new(&vec![port(PortDescriptor::Invalid)]);
    assert_eq!(st.connect(0, 0x1000), Err(ConnectError::InvalidPort));
    assert!(!st.is_complete());
}

#[test]
fn ports_list_appears_once_every_port_is_bound() {
    let mut st = InstanceState::new(&delay_ports());
    for i in (0..8u64).rev() {
        assert!(st.ports().is_empty());
        assert_eq!(st.connect(i, 0x1000 + 0x100 * i as usize), Ok(()));
    }
    assert!(st.is_complete());
    let ports = st.ports();
    assert_eq!(ports.len(), 8);
    assert_eq!(ports[0], PortBinding::AudioInput { location: 0x1000, len: 0 });
    assert_eq!(ports[2], PortBinding::AudioOutput { location: 0x1200, len: 0 });
    assert_eq!(ports[7], PortBinding::ControlInput { location: 0x1700 });
    for (i, b) in ports.iter().enumerate() {
        assert_eq!(b.location(), 0x1000 + 0x100 * i);
    }
}

#[test]
fn run_resizes_audio_views_only() {
    let mut st = InstanceState::new(&vec![
        port(PortDescriptor::AudioInput),
        port(PortDescriptor::AudioOutput),
        port(PortDescriptor::ControlInput),
        port(PortDescriptor::ControlOutput),
    ]);
    for i in 0..4u64 {
        st.connect(i, 0x2000 + i as usize * 8).unwrap();
    }
    let ports = st.prepare_run(64);
    assert_eq!(
        ports,
        vec![
            PortBinding::AudioInput { location: 0x2000, len: 64 },
            PortBinding::AudioOutput { location: 0x2008, len: 64 },
            PortBinding::ControlInput { location: 0x2010 },
            PortBinding::ControlOutput { location: 0x2018 },
        ]
    );
    let ports = st.prepare_run(3);
    assert_eq!(ports[0], PortBinding::AudioInput { location: 0x2000, len: 3 });
    assert_eq!(ports[1], PortBinding::AudioOutput { location: 0x2008, len: 3 });
}

#[test]
fn run_before_binding_is_complete_gives_no_ports() {
    let mut st = InstanceState::new(&delay_ports());
    st.connect(0, 0x10).unwrap();
    assert!(st.prepare_run(128).is_empty());
}

#[test]
fn rebinding_replaces_the_old_location() {
    let mut st = InstanceState::new(&vec![port(PortDescriptor::AudioInput), port(PortDescriptor::ControlOutput)]);
    st.connect(0, 0x100).unwrap();
    st.connect(1, 0x200).unwrap();
    st.prepare_run(16);
    st.connect(0, 0x900).unwrap();
    st.connect(1, 0x700).unwrap();
    let ports = st.ports();
    assert_eq!(ports[0], PortBinding::AudioInput { location: 0x900, len: 0 });
    let ports = st.prepare_run(16);
    assert_eq!(
        ports,
        vec![
            PortBinding::AudioInput { location: 0x900, len: 16 },
            PortBinding::ControlOutput { location: 0x700 },
        ]
    );
}

#[test]
fn lifecycle_follows_activate_and_deactivate() {
    let mut st = InstanceState::new(&delay_ports());
    st.activate();
    assert_eq!(st.lifecycle(), Lifecycle::Active);
    st.deactivate();
    assert_eq!(st.lifecycle(), Lifecycle::Inactive);
    st.activate();
    assert_eq!(st.lifecycle(), Lifecycle::Active);
}

#[test]
fn delay_fixture_binds_real_buffers() {
    let input_l = vec![0.5f32; 44100];
    let input_r = vec![0.25f32; 44100];
    let mut out_l = vec![0f32; 44100];
    let mut out_r = vec![0f32; 44100];
    let controls = [0.0f32, 0.0, 1.0, 1.0];
    let mut st = InstanceState::new(&delay_ports());
    st.connect(0, input_l.as_ptr() as usize).unwrap();
    st.connect(1, input_r.as_ptr() as usize).unwrap();
    st.connect(2, out_l.as_mut_ptr() as usize).unwrap();
    st.connect(3, out_r.as_mut_ptr() as usize).unwrap();
    for i in 0..4 {
        st.connect(4 + i as u64, controls.as_ptr() as usize + 4 * i).unwrap();
    }
    let ports = st.prepare_run(44100);
    assert_eq!(ports[0], PortBinding::AudioInput { location: input_l.as_ptr() as usize, len: 44100 });
    assert_eq!(ports[3], PortBinding::AudioOutput { location: out_r.as_ptr() as usize, len: 44100 });
    assert_eq!(ports[6], PortBinding::ControlInput { location: controls.as_ptr() as usize + 8 });
}
