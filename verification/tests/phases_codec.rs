use sampled_values::model::{PhaseMeasurement, PhaseMeasures, Phases, SvError};

#[test]
fn phase_measurement_from_bytes() {
    let bytes: &[u8] = &[0xff, 0xff, 0xff, 0xfd, 0x00, 0x00, 0x00, 0x00];
    let phase_measurement = PhaseMeasurement::from_bytes(bytes).unwrap();
    assert_eq!(phase_measurement.value, -3);
    assert_eq!(phase_measurement.quality, 0);
}

#[test]
fn phases_phase_measurement_from_bytes() {
    let bytes: &[u8] = &[0xff, 0xff, 0xff, 0xfd, 0x00, 0x00, 0x00, 0x00];
    let phase_measurement = PhaseMeasurement::from_bytes(bytes).unwrap();
    assert_eq!(phase_measurement.value, -3);
    assert_eq!(phase_measurement.quality, 0);
}

#[test]
fn phase_measures_from_bytes() {
    let bytes: &[u8] = &[
        0xff, 0xff, 0xff, 0xfd, 0x00, 0x00, 0x00, 0x00, 0x00, 0x00, 0x00, 0x03, 0x00, 0x00, 0x00,
        0x00, 0x00, 0x00, 0x00, 0x03, 0x00, 0x00, 0x00, 0x00, 0x00, 0x00, 0x00, 0x03, 0x00, 0x00,
        0x20, 0x00,
    ];

    let phase_measures = PhaseMeasures::from_bytes(bytes).unwrap();
    assert_eq!(phase_measures.a.value, -3);
    assert_eq!(phase_measures.a.quality, 0);
    assert_eq!(phase_measures.b.value, 3);
    assert_eq!(phase_measures.b.quality, 0);
    assert_eq!(phase_measures.c.value, 3);
    assert_eq!(phase_measures.c.quality, 0);
    assert_eq!(phase_measures.n.value, 3);
    assert_eq!(phase_measures.n.quality, 0x00002000);
}

#[test]
fn phases_phase_measures_from_bytes() {
    let bytes: &[u8] = &[
        0xff, 0xff, 0xff, 0xfd, 0x00, 0x00, 0x00, 0x00, 0x00, 0x00, 0x00, 0x03, 0x00, 0x00, 0x00,
        0x00, 0x00, 0x00, 0x00, 0x03, 0x00, 0x00, 0x00, 0x00, 0x00, 0x00, 0x00, 0x03, 0x00, 0x00,
        0x20, 0x00,
    ];

    let phase_measures = PhaseMeasures::from_bytes(bytes).unwrap();
    assert_eq!(phase_measures.a.value, -3);
    assert_eq!(phase_measures.a.quality, 0);
    assert_eq!(phase_measures.b.value, 3);
    assert_eq!(phase_measures.b.quality, 0);
    assert_eq!(phase_measures.c.value, 3);
    assert_eq!(phase_measures.c.quality, 0);
    assert_eq!(phase_measures.n.value, 3);
    assert_eq!(phase_measures.n.quality, 0x00002000);
}

#[test]
fn phases_from_bytes() {
    let bytes: &[u8] = &[
        0xff, 0xff, 0xff, 0xfd, 0x00, 0x00, 0x00, 0x00, 0x00, 0x00, 0x00, 0x03, 0x00, 0x00, 0x00,
        0x00, 0x00, 0x00, 0x00, 0x03, 0x00, 0x00, 0x00, 0x00, 0x00, 0x00, 0x00, 0x03, 0x00, 0x00,
        0x20, 0x00, 0xff, 0xff, 0xff, 0xfd, 0x00, 0x00, 0x00, 0x00, 0xff, 0xff, 0xff, 0xfd, 0x00,
        0x00, 0x00, 0x00, 0xff, 0xff, 0xff, 0xfc, 0x00, 0x00, 0x00, 0x00, 0xff, 0xff, 0xff, 0xf6,
        0x00, 0x00, 0x20, 0x00,
    ];

    let phases = Phases::from_bytes(bytes).unwrap();
    assert_eq!(phases.current.a.value, -3);
    assert_eq!(phases.current.a.quality, 0);
    assert_eq!(phases.current.b.value, 3);
    assert_eq!(phases.current.b.quality, 0);
    assert_eq!(phases.current.c.value, 3);
    assert_eq!(phases.current.c.quality, 0);
    assert_eq!(phases.current.n.value, 3);
    assert_eq!(phases.current.n.quality, 0x00002000);
    assert_eq!(phases.voltage.a.value, -3);
    assert_eq!(phases.voltage.a.quality, 0);
    assert_eq!(phases.voltage.b.value, -3);
    assert_eq!(phases.voltage.b.quality, 0);
    assert_eq!(phases.voltage.c.value, -4);
    assert_eq!(phases.voltage.c.quality, 0);
    assert_eq!(phases.voltage.n.value, -10);
    assert_eq!(phases.voltage.n.quality, 0x00002000);
}

#[test]
fn phases_phases_from_bytes() {
    let bytes: &[u8] = &[
        0xff, 0xff, 0xff, 0xfd, 0x00, 0x00, 0x00, 0x00, 0x00, 0x00, 0x00, 0x03, 0x00, 0x00, 0x00,
        0x00, 0x00, 0x00, 0x00, 0x03, 0x00, 0x00, 0x00, 0x00, 0x00, 0x00, 0x00, 0x03, 0x00, 0x00,
        0x20, 0x00, 0xff, 0xff, 0xff, 0xfd, 0x00, 0x00, 0x00, 0x00, 0xff, 0xff, 0xff, 0xfd, 0x00,
        0x00, 0x00, 0x00, 0xff, 0xff, 0xff, 0xfc, 0x00, 0x00, 0x00, 0x00, 0xff, 0xff, 0xff, 0xf6,
        0x00, 0x00, 0x20, 0x00,
    ];

    let phases = Phases::from_bytes(bytes).unwrap();
    assert_eq!(phases.current.a.value, -3);
    assert_eq!(phases.current.a.quality, 0);
    assert_eq!(phases.current.b.value, 3);
    assert_eq!(phases.current.b.quality, 0);
    assert_eq!(phases.current.c.value, 3);
    assert_eq!(phases.current.c.quality, 0);
    assert_eq!(phases.current.n.value, 3);
    assert_eq!(phases.current.n.quality, 0x00002000);
    assert_eq!(phases.voltage.a.value, -3);
    assert_eq!(phases.voltage.a.quality, 0);
    assert_eq!(phases.voltage.b.value, -3);
    assert_eq!(phases.voltage.b.quality, 0);
    assert_eq!(phases.voltage.c.value, -4);
    assert_eq!(phases.voltage.c.quality, 0);
    assert_eq!(phases.voltage.n.value, -10);
    assert_eq!(phases.voltage.n.quality, 0x00002000);
}

#[test]
fn phase_measurement_to_bytes() {
    let phase_measurement = PhaseMeasurement {
        value: -3,
        quality: 0,
    };
    let bytes = phase_measurement.to_bytes();
    assert_eq!(bytes, vec![0xff, 0xff, 0xff, 0xfd, 0x00, 0x00, 0x00, 0x00]);
}

#[test]
fn phase_measures_to_bytes() {
    let phase_measures = PhaseMeasures {
        a: PhaseMeasurement { value: 0, quality: 0 },
        b: PhaseMeasurement { value: 0, quality: 0 },
        c: PhaseMeasurement { value: 0, quality: 0 },
        n: PhaseMeasurement { value: 0, quality: 0 },
    };
    let bytes = phase_measures.to_bytes();
    assert_eq!(bytes, vec![0; 32]);
}

#[test]
fn phases_to_bytes() {
    let phases = Phases {
        current: PhaseMeasures {
            a: PhaseMeasurement { value: 0, quality: 0 },
            b: PhaseMeasurement { value: 0, quality: 0 },
            c: PhaseMeasurement { value: 0, quality: 0 },
            n: PhaseMeasurement { value: 0, quality: 0 },
        },
        voltage: PhaseMeasures {
            a: PhaseMeasurement { value: 0, quality: 0 },
            b: PhaseMeasurement { value: 0, quality: 0 },
            c: PhaseMeasurement { value: 0, quality: 0 },
            n: PhaseMeasurement { value: 0, quality: 0 },
        },
    };
    let bytes = phases.to_bytes();
    assert_eq!(bytes, vec![0; 64]);
}

#[test]
fn phase_measurement_wrong_size_fails() {
    assert!(matches!(PhaseMeasurement::from_bytes(&[0; 7]), Err(SvError::Format)));
    assert!(matches!(PhaseMeasurement::from_bytes(&[0; 9]), Err(SvError::Format)));
    assert!(matches!(PhaseMeasurement::from_bytes(&[]), Err(SvError::Format)));
}

#[test]
fn phase_measures_wrong_size_fails() {
    assert!(matches!(PhaseMeasures::from_bytes(&[0; 31]), Err(SvError::Format)));
    assert!(matches!(PhaseMeasures::from_bytes(&[0; 33]), Err(SvError::Format)));
}

#[test]
fn phases_wrong_size_fails() {
    assert!(matches!(Phases::from_bytes(&[0; 63]), Err(SvError::Format)));
    assert!(matches!(Phases::from_bytes(&[0; 65]), Err(SvError::Format)));
}

#[test]
fn phases_round_trip_negative_values() {
    let bytes: &[u8] = &[
        0x80, 0x00, 0x00, 0x01, 0x7f, 0xff, 0xff, 0xff, 0x00, 0x00, 0x00, 0x00, 0xff, 0xff, 0xff,
        0xff, 0x12, 0x34, 0x56, 0x78, 0x00, 0x00, 0x00, 0x01, 0xfe, 0xdc, 0xba, 0x98, 0x00, 0x00,
        0x00, 0x02, 0x01, 0x02, 0x03, 0x04, 0x05, 0x06, 0x07, 0x08, 0x09, 0x0a, 0x0b, 0x0c, 0x0d,
        0x0e, 0x0f, 0x10, 0x11, 0x12, 0x13, 0x14, 0x15, 0x16, 0x17, 0x18, 0x19, 0x1a, 0x1b, 0x1c,
        0x1d, 0x1e, 0x1f, 0x20,
    ];
    let phases = Phases::from_bytes(bytes).unwrap();
    assert_eq!(phases.current.a.value, -2147483647);
    assert_eq!(phases.current.a.quality, 2147483647);
    assert_eq!(phases.current.b.value, 0);
    assert_eq!(phases.current.b.quality, -1);
    assert_eq!(phases.to_bytes(), bytes.to_vec());
}
