use sampled_values::model::{Asdu, PhaseMeasurement, PhaseMeasures, Phases, SampleSync, SvError};

#[test]
fn decode_asdu() {
    let bytes: &[u8] = &[
        0x80, 0x04, 0x34, 0x30, 0x30, 0x30, 0x82, 0x02, 0x00, 0x00, 0x83, 0x04, 0x00, 0x00, 0x00,
        0x01, 0x85, 0x01, 0x01, 0x87, 0x40, 0xff, 0xff, 0xff, 0xfd, 0x00, 0x00, 0x00, 0x00, 0x00,
        0x00, 0x00, 0x03, 0x00, 0x00, 0x00, 0x00, 0x00, 0x00, 0x00, 0x03, 0x00, 0x00, 0x00, 0x00,
        0x00, 0x00, 0x00, 0x03, 0x00, 0x00, 0x20, 0x00, 0xff, 0xff, 0xff, 0xfd, 0x00, 0x00, 0x00,
        0x00, 0xff, 0xff, 0xff, 0xfd, 0x00, 0x00, 0x00, 0x00, 0xff, 0xff, 0xff, 0xfc, 0x00, 0x00,
        0x00, 0x00, 0xff, 0xff, 0xff, 0xf6, 0x00, 0x00, 0x20, 0x00,
    ];

    let expected = Asdu {
        sv_id: "4000".to_string(),
        dataset: None,
        smp_count: 0,
        conf_rev: 1,
        refr_tm: None,
        smp_sync: SampleSync::Local,
        smp_rate: None,
        measures: Phases::from_bytes(&bytes[21..21 + 64]).unwrap(),
        smp_mode: None,
    };

    assert_eq!(expected, Asdu::from_bytes(bytes).unwrap());
}

#[test]
fn asdu_decode_asdu() {
    let bytes: &[u8] = &[
        0x80, 0x04, 0x34, 0x30, 0x30, 0x30, 0x82, 0x02, 0x00, 0x00, 0x83, 0x04, 0x00, 0x00, 0x00,
        0x01, 0x85, 0x01, 0x01, 0x87, 0x40, 0xff, 0xff, 0xff, 0xfd, 0x00, 0x00, 0x00, 0x00, 0x00,
        0x00, 0x00, 0x03, 0x00, 0x00, 0x00, 0x00, 0x00, 0x00, 0x00, 0x03, 0x00, 0x00, 0x00, 0x00,
        0x00, 0x00, 0x00, 0x03, 0x00, 0x00, 0x20, 0x00, 0xff, 0xff, 0xff, 0xfd, 0x00, 0x00, 0x00,
        0x00, 0xff, 0xff, 0xff, 0xfd, 0x00, 0x00, 0x00, 0x00, 0xff, 0xff, 0xff, 0xfc, 0x00, 0x00,
        0x00, 0x00, 0xff, 0xff, 0xff, 0xf6, 0x00, 0x00, 0x20, 0x00,
    ];

    let expected = Asdu {
        sv_id: "4000".to_string(),
        dataset: None,
        smp_count: 0,
        conf_rev: 1,
        refr_tm: None,
        smp_sync: SampleSync::Local,
        smp_rate: None,
        measures: Phases::from_bytes(&bytes[21..21 + 64]).unwrap(),
        smp_mode: None,
    };

    assert_eq!(expected, Asdu::from_bytes(bytes).unwrap());
}

#[test]
fn add_sv_id() {
    assert_eq!(Asdu::sv_id_to_bytes("4000"), vec![0x80, 0x04, 0x34, 0x30, 0x30, 0x30]);
}

#[test]
fn asdu_add_sv_id() {
    assert_eq!(Asdu::sv_id_to_bytes("4000"), vec![0x80, 0x04, 0x34, 0x30, 0x30, 0x30]);
}

#[test]
fn add_smp_count() {
    assert_eq!(Asdu::smp_count_to_bytes(0), vec![0x82, 0x02, 0x00, 0x00]);
}

#[test]
fn asdu_add_smp_count() {
    assert_eq!(Asdu::smp_count_to_bytes(0), vec![0x82, 0x02, 0x00, 0x00]);
}

#[test]
fn add_conf_rev() {
    assert_eq!(Asdu::conf_rev_to_bytes(1), vec![0x83, 0x04, 0x00, 0x00, 0x00, 0x01]);
}

#[test]
fn asdu_add_conf_rev() {
    assert_eq!(Asdu::conf_rev_to_bytes(1), vec![0x83, 0x04, 0x00, 0x00, 0x00, 0x01]);
}

#[test]
fn add_smp_sync() {
    assert_eq!(Asdu::smp_sync_to_bytes(SampleSync::Local.byte()), vec![0x85, 0x01, 0x01]);
}

#[test]
fn asdu_add_smp_sync() {
    assert_eq!(Asdu::smp_sync_to_bytes(SampleSync::Local.byte()), vec![0x85, 0x01, 0x01]);
}

#[test]
fn add_measures() {
    let measures = Phases {
        current: PhaseMeasures {
            a: PhaseMeasurement { value: 0, quality: 0 },
            b: PhaseMeasurement { value: 0, quality: 0 },
            c: PhaseMeasurement { value: 0, quality: 0 },
            n: PhaseMeasurement { value: 0, quality: 0 },
        },
        voltage: PhaseMeasures {
            a: PhaseMeasurement { value: 0, quality: 0 },
            b: PhaseMeasurement { value: 0, quality: 0 },
            c: PhaseMeasurement { value: 0, quality: 0 },
            n: PhaseMeasurement { value: 0, quality: 0 },
        },
    };

    let mut expected: Vec<u8> = vec![0x87, 0x40];
    expected.append(&mut vec![0; 64]);
    assert_eq!(Asdu::measures_to_bytes(&measures), expected);
}

#[test]
fn asdu_add_measures() {
    let measures = Phases {
        current: PhaseMeasures {
            a: PhaseMeasurement { value: 0, quality: 0 },
            b: PhaseMeasurement { value: 0, quality: 0 },
            c: PhaseMeasurement { value: 0, quality: 0 },
            n: PhaseMeasurement { value: 0, quality: 0 },
        },
        voltage: PhaseMeasures {
            a: PhaseMeasurement { value: 0, quality: 0 },
            b: PhaseMeasurement { value: 0, quality: 0 },
            c: PhaseMeasurement { value: 0, quality: 0 },
            n: PhaseMeasurement { value: 0, quality: 0 },
        },
    };

    let mut expected: Vec<u8> = vec![0x87, 0x40];
    expected.append(&mut vec![0; 64]);
    assert_eq!(Asdu::measures_to_bytes(&measures), expected);
}

#[test]
fn asdu_to_bytes() {
    let bytes: &[u8] = &[
        0x80, 0x04, 0x34, 0x30, 0x30, 0x30, 0x82, 0x02, 0x00, 0x00, 0x83, 0x04, 0x00, 0x00, 0x00,
        0x01, 0x85, 0x01, 0x01, 0x87, 0x40, 0xff, 0xff, 0xff, 0xfd, 0x00, 0x00, 0x00, 0x00, 0x00,
        0x00, 0x00, 0x03, 0x00, 0x00, 0x00, 0x00, 0x00, 0x00, 0x00, 0x03, 0x00, 0x00, 0x00, 0x00,
        0x00, 0x00, 0x00, 0x03, 0x00, 0x00, 0x20, 0x00, 0xff, 0xff, 0xff, 0xfd, 0x00, 0x00, 0x00,
        0x00, 0xff, 0xff, 0xff, 0xfd, 0x00, 0x00, 0x00, 0x00, 0xff, 0xff, 0xff, 0xfc, 0x00, 0x00,
        0x00, 0x00, 0xff, 0xff, 0xff, 0xf6, 0x00, 0x00, 0x20, 0x00,
    ];

    let object = Asdu::from_bytes(bytes).unwrap();
    assert_eq!(object.to_bytes(), bytes);
}

#[test]
fn asdu_asdu_to_bytes() {
    let bytes: &[u8] = &[
        0x80, 0x04, 0x34, 0x30, 0x30, 0x30, 0x82, 0x02, 0x00, 0x00, 0x83, 0x04, 0x00, 0x00, 0x00,
        0x01, 0x85, 0x01, 0x01, 0x87, 0x40, 0xff, 0xff, 0xff, 0xfd, 0x00, 0x00, 0x00, 0x00, 0x00,
        0x00, 0x00, 0x03, 0x00, 0x00, 0x00, 0x00, 0x00, 0x00, 0x00, 0x03, 0x00, 0x00, 0x00, 0x00,
        0x00, 0x00, 0x00, 0x03, 0x00, 0x00, 0x20, 0x00, 0xff, 0xff, 0xff, 0xfd, 0x00, 0x00, 0x00,
        0x00, 0xff, 0xff, 0xff, 0xfd, 0x00, 0x00, 0x00, 0x00, 0xff, 0xff, 0xff, 0xfc, 0x00, 0x00,
        0x00, 0x00, 0xff, 0xff, 0xff, 0xf6, 0x00, 0x00, 0x20, 0x00,
    ];

    let object = Asdu::from_bytes(bytes).unwrap();
    assert_eq!(object.to_bytes(), bytes);
}

#[test]
fn next_asdu() {
    let mut current_asdu = Asdu {
        sv_id: "4000".to_string(),
        dataset: None,
        smp_count: 0,
        conf_rev: 1,
        refr_tm: None,
        smp_sync: SampleSync::Local,
        smp_rate: None,
        measures: Phases {
            current: PhaseMeasures {
                a: PhaseMeasurement { value: 0, quality: 0 },
                b: PhaseMeasurement { value: 0, quality: 0 },
                c: PhaseMeasurement { value: 0, quality: 0 },
                n: PhaseMeasurement { value: 0, quality: 0 },
            },
            voltage: PhaseMeasures {
                a: PhaseMeasurement { value: 0, quality: 0 },
                b: PhaseMeasurement { value: 0, quality: 0 },
                c: PhaseMeasurement { value: 0, quality: 0 },
                n: PhaseMeasurement { value: 0, quality: 0 },
            },
        },
        smp_mode: None,
    };

    let expected_asdu_next = Asdu {
        sv_id: "4000".to_string(),
        dataset: None,
        smp_count: 1,
        conf_rev: 1,
        refr_tm: None,
        smp_sync: SampleSync::Local,
        smp_rate: None,
        measures: Phases {
            current: PhaseMeasures {
                a: PhaseMeasurement { value: 0, quality: 0 },
                b: PhaseMeasurement { value: 0, quality: 0 },
                c: PhaseMeasurement { value: 0, quality: 0 },
                n: PhaseMeasurement { value: 0, quality: 0 },
            },
            voltage: PhaseMeasures {
                a: PhaseMeasurement { value: 235, quality: 0 },
                b: PhaseMeasurement { value: 235, quality: 0 },
                c: PhaseMeasurement { value: 235, quality: 0 },
                n: PhaseMeasurement { value: 705, quality: 0 },
            },
        },
        smp_mode: None,
    };

    let vol: f64 = 30.0;
    let amp: f64 = 0.0;
    let sample_point: f64 = ((current_asdu.smp_count + 1) % 4800 % 80) as f64;
    let angle: f64 = sample_point * (2.0 * std::f64::consts::PI / 80.0);
    let current_sample = (amp * angle.sin() * 1000.0) as i32;
    let voltage_sample = (vol * angle.sin() * 100.0) as i32;
    current_asdu.next(current_sample, voltage_sample);
    assert_eq!(current_asdu, expected_asdu_next);
}

#[test]
fn smp_count_wraps_at_4800() {
    let bytes: &[u8] = &[
        0x80, 0x04, 0x34, 0x30, 0x30, 0x30, 0x82, 0x02, 0x12, 0xbf, 0x83, 0x04, 0x00, 0x00, 0x00,
        0x01, 0x85, 0x01, 0x01, 0x87, 0x40, 0x00, 0x00, 0x00, 0x00, 0x00, 0x00, 0x00, 0x00, 0x00,
        0x00, 0x00, 0x00, 0x00, 0x00, 0x00, 0x00, 0x00, 0x00, 0x00, 0x00, 0x00, 0x00, 0x00, 0x00,
        0x00, 0x00, 0x00, 0x00, 0x00, 0x00, 0x00, 0x00, 0x00, 0x00, 0x00, 0x00, 0x00, 0x00, 0x00,
        0x00, 0x00, 0x00, 0x00, 0x00, 0x00, 0x00, 0x00, 0x00, 0x00, 0x00, 0x00, 0x00, 0x00, 0x00,
        0x00, 0x00, 0x00, 0x00, 0x00, 0x00, 0x00, 0x00, 0x00, 0x00,
    ];
    let mut asdu = Asdu::from_bytes(bytes).unwrap();
    assert_eq!(asdu.smp_count, 4799);
    asdu.next(0, 0);
    assert_eq!(asdu.smp_count, 0);
    asdu.next(7, -7);
    assert_eq!(asdu.smp_count, 1);
    assert_eq!(asdu.measures.current.n.value, 21);
    assert_eq!(asdu.measures.voltage.n.value, -21);
}

#[test]
fn decode_asdu_all_optional_fields() {
    let mut bytes: Vec<u8> = vec![];
    bytes.append(&mut Asdu::sv_id_to_bytes("4000"));
    bytes.append(&mut Asdu::dataset_to_bytes("set1"));
    bytes.append(&mut Asdu::smp_count_to_bytes(77));
    bytes.append(&mut Asdu::conf_rev_to_bytes(9));
    bytes.append(&mut Asdu::refr_tm_to_bytes(0x0102030405060708));
    bytes.append(&mut Asdu::smp_sync_to_bytes(2));
    bytes.append(&mut Asdu::smp_rate_to_bytes(4800));
    let zero = PhaseMeasurement { value: 0, quality: 0 };
    let measures = Phases {
        current: PhaseMeasures { a: zero, b: zero, c: zero, n: zero },
        voltage: PhaseMeasures { a: zero, b: zero, c: zero, n: zero },
    };
    bytes.append(&mut Asdu::measures_to_bytes(&measures));
    bytes.append(&mut Asdu::smp_mode_to_bytes(3));

    let asdu = Asdu::from_bytes(&bytes).unwrap();
    assert_eq!(asdu.sv_id, "4000");
    assert_eq!(asdu.dataset, Some("set1".to_string()));
    assert_eq!(asdu.smp_count, 77);
    assert_eq!(asdu.conf_rev, 9);
    assert_eq!(asdu.refr_tm, Some(0x0102030405060708));
    assert_eq!(asdu.smp_sync, SampleSync::Global);
    assert_eq!(asdu.smp_rate, Some(4800));
    assert_eq!(asdu.smp_mode, Some(3));
    assert_eq!(asdu.to_bytes(), bytes);
}

#[test]
fn encode_skips_absent_fields() {
    let zero = PhaseMeasurement { value: 0, quality: 0 };
    let asdu = Asdu {
        sv_id: "4000".to_string(),
        dataset: None,
        smp_count: 5,
        conf_rev: 2,
        refr_tm: None,
        smp_sync: SampleSync::Internal,
        smp_rate: None,
        measures: Phases {
            current: PhaseMeasures { a: zero, b: zero, c: zero, n: zero },
            voltage: PhaseMeasures { a: zero, b: zero, c: zero, n: zero },
        },
        smp_mode: None,
    };

    let mut expected: Vec<u8> = vec![];
    expected.append(&mut Asdu::sv_id_to_bytes("4000"));
    expected.append(&mut Asdu::smp_count_to_bytes(5));
    expected.append(&mut Asdu::conf_rev_to_bytes(2));
    expected.append(&mut Asdu::smp_sync_to_bytes(0));
    expected.append(&mut Asdu::measures_to_bytes(&asdu.measures));
    assert_eq!(asdu.to_bytes(), expected);
}

#[test]
fn decode_smp_sync_value_3_fails() {
    let bytes: &[u8] = &[
        0x80, 0x04, 0x34, 0x30, 0x30, 0x30, 0x82, 0x02, 0x00, 0x00, 0x83, 0x04, 0x00, 0x00, 0x00,
        0x01, 0x85, 0x01, 0x03, 0x87, 0x40, 0x00, 0x00, 0x00, 0x00, 0x00, 0x00, 0x00, 0x00, 0x00,
        0x00, 0x00, 0x00, 0x00, 0x00, 0x00, 0x00, 0x00, 0x00, 0x00, 0x00, 0x00, 0x00, 0x00, 0x00,
        0x00, 0x00, 0x00, 0x00, 0x00, 0x00, 0x00, 0x00, 0x00, 0x00, 0x00, 0x00, 0x00, 0x00, 0x00,
        0x00, 0x00, 0x00, 0x00, 0x00, 0x00, 0x00, 0x00, 0x00, 0x00, 0x00, 0x00, 0x00, 0x00, 0x00,
        0x00, 0x00, 0x00, 0x00, 0x00, 0x00, 0x00, 0x00, 0x00, 0x00,
    ];
    assert!(matches!(Asdu::from_bytes(bytes), Err(SvError::Format)));
}

#[test]
fn decode_multibyte_utf8_sv_id() {
    let mut bytes: Vec<u8> = vec![0x80, 0x02, 0xce, 0xbc];
    bytes.append(&mut Asdu::smp_count_to_bytes(0));
    bytes.append(&mut Asdu::conf_rev_to_bytes(1));
    bytes.append(&mut Asdu::smp_sync_to_bytes(1));
    let zero = PhaseMeasurement { value: 0, quality: 0 };
    let measures = Phases {
        current: PhaseMeasures { a: zero, b: zero, c: zero, n: zero },
        voltage: PhaseMeasures { a: zero, b: zero, c: zero, n: zero },
    };
    bytes.append(&mut Asdu::measures_to_bytes(&measures));
    let asdu = Asdu::from_bytes(&bytes).unwrap();
    assert_eq!(asdu.sv_id, "\u{03bc}");
    assert_eq!(asdu.to_bytes(), bytes);
}

#[test]
fn decode_invalid_utf8_sv_id_fails() {
    let mut bytes: Vec<u8> = vec![0x80, 0x02, 0xff, 0xfe];
    bytes.append(&mut Asdu::smp_count_to_bytes(0));
    bytes.append(&mut Asdu::conf_rev_to_bytes(1));
    bytes.append(&mut Asdu::smp_sync_to_bytes(1));
    let zero = PhaseMeasurement { value: 0, quality: 0 };
    let measures = Phases {
        current: PhaseMeasures { a: zero, b: zero, c: zero, n: zero },
        voltage: PhaseMeasures { a: zero, b: zero, c: zero, n: zero },
    };
    bytes.append(&mut Asdu::measures_to_bytes(&measures));
    assert!(matches!(Asdu::from_bytes(&bytes), Err(SvError::Format)));
}
