use pn532_i2c::i2c::{
    is_ready_status, AsyncI2cInterface, I2CInterface, I2CInterfaceWithIrq, Readiness,
    PN532_I2C_READY,
};
use pn532_i2c::script::{
    ScriptError, ScriptStep, ScriptedBus, ScriptedPin, ERR_SCRIPT_EXHAUSTED, ERR_SCRIPT_MISMATCH,
};

#[test]
fn ready_sentinel_value() {
    assert_eq!(PN532_I2C_READY, 0x01);
    assert!(is_ready_status(0x01));
    assert!(!is_ready_status(0x00));
    assert!(!is_ready_status(0xFF));
}

#[test]
fn write_forwards_frame_unmodified() {
    let frame = vec![0xD4, 0x02, 0x2A];
    let script = vec![ScriptStep::ExpectWrite {
        addr: 0x24,
        data: frame.clone(),
    }];
    let mut iface = I2CInterface {
        i2c: ScriptedBus::new(script),
    };
    assert_eq!(iface.write(&frame), Ok(()));
    assert_eq!(iface.i2c.remaining(), 0);
}

#[test]
fn write_modified_frame_is_caught_by_script() {
    let script = vec![ScriptStep::ExpectWrite {
        addr: 0x24,
        data: vec![0xD4, 0x02],
    }];
    let mut iface = I2CInterface {
        i2c: ScriptedBus::new(script),
    };
    assert_eq!(
        iface.write(&[0xD4, 0x03]),
        Err(ScriptError {
            code: ERR_SCRIPT_MISMATCH
        })
    );
}

#[test]
fn write_goes_to_the_fixed_device_address() {
    // The script expects a write to another address; the transport must
    // still address 0x24, so the scripted device reports a mismatch.
    let script = vec![ScriptStep::ExpectWrite {
        addr: 0x25,
        data: vec![0xD4],
    }];
    let mut iface = I2CInterface {
        i2c: ScriptedBus::new(script),
    };
    assert_eq!(
        iface.write(&[0xD4]),
        Err(ScriptError {
            code: ERR_SCRIPT_MISMATCH
        })
    );
}

#[test]
fn status_poll_pending_then_ready() {
    let script = vec![
        ScriptStep::Reply {
            addr: 0x24,
            data: vec![0x00],
        },
        ScriptStep::Reply {
            addr: 0x24,
            data: vec![0x01],
        },
    ];
    let mut iface = I2CInterface {
        i2c: ScriptedBus::new(script),
    };
    assert!(matches!(iface.wait_ready(), Readiness::Pending));
    assert!(matches!(iface.wait_ready(), Readiness::Ready));
}

#[test]
fn status_poll_treats_every_other_byte_as_pending() {
    let script = vec![
        ScriptStep::Reply {
            addr: 0x24,
            data: vec![0x02],
        },
        ScriptStep::Reply {
            addr: 0x24,
            data: vec![0xFF],
        },
    ];
    let mut iface = I2CInterface {
        i2c: ScriptedBus::new(script),
    };
    assert!(matches!(iface.wait_ready(), Readiness::Pending));
    assert!(matches!(iface.wait_ready(), Readiness::Pending));
}

#[test]
fn status_poll_bus_error_is_failed_not_pending() {
    let script = vec![ScriptStep::Fail { code: 7 }];
    let mut iface = I2CInterface {
        i2c: ScriptedBus::new(script),
    };
    match iface.wait_ready() {
        Readiness::Failed(e) => assert_eq!(e, ScriptError { code: 7 }),
        _ => panic!("a bus error must surface as Failed"),
    }
}

#[test]
fn irq_high_is_pending_low_is_ready() {
    // false = logic-high (not ready), true = logic-low (ready).
    let mut iface = I2CInterfaceWithIrq {
        i2c: ScriptedBus::new(vec![]),
        irq: ScriptedPin::new(vec![false, true]),
    };
    assert!(matches!(iface.wait_ready(), Readiness::Pending));
    assert!(matches!(iface.wait_ready(), Readiness::Ready));
    // The readiness poll causes no bus traffic: the empty bus script was
    // never touched.
    assert_eq!(iface.i2c.remaining(), 0);
}

#[test]
fn irq_exhausted_pin_reads_high() {
    let mut iface = I2CInterfaceWithIrq {
        i2c: ScriptedBus::new(vec![]),
        irq: ScriptedPin::new(vec![]),
    };
    assert!(matches!(iface.wait_ready(), Readiness::Pending));
}

#[test]
fn read_strips_the_leading_framing_byte() {
    let script = vec![ScriptStep::Reply {
        addr: 0x24,
        data: vec![0xFF, 0x01, 0x02, 0x03, 0x04],
    }];
    let mut iface = I2CInterface {
        i2c: ScriptedBus::new(script),
    };
    let mut buf = vec![0u8; 4];
    assert_eq!(iface.read(&mut buf), Ok(()));
    assert_eq!(buf, vec![0x01, 0x02, 0x03, 0x04]);
}

#[test]
fn read_asks_for_one_byte_more_than_the_buffer() {
    // The scripted device only has 4 bytes ready; a read into a 4-byte
    // buffer must ask for 5 bytes, so the lengths mismatch.
    let script = vec![ScriptStep::Reply {
        addr: 0x24,
        data: vec![0x01, 0x02, 0x03, 0x04],
    }];
    let mut iface = I2CInterface {
        i2c: ScriptedBus::new(script),
    };
    let mut buf = vec![0u8; 4];
    assert_eq!(
        iface.read(&mut buf),
        Err(ScriptError {
            code: ERR_SCRIPT_MISMATCH
        })
    );
}

#[test]
fn read_error_propagates_unchanged_and_leaves_buffer() {
    let script = vec![ScriptStep::Fail { code: 9 }];
    let mut iface = I2CInterface {
        i2c: ScriptedBus::new(script),
    };
    let mut buf = vec![0xAA, 0xBB];
    assert_eq!(iface.read(&mut buf), Err(ScriptError { code: 9 }));
    assert_eq!(buf, vec![0xAA, 0xBB]);
}

#[test]
fn read_empty_buffer_still_discards_one_byte() {
    let script = vec![ScriptStep::Reply {
        addr: 0x24,
        data: vec![0xFF],
    }];
    let mut iface = I2CInterface {
        i2c: ScriptedBus::new(script),
    };
    let mut buf: Vec<u8> = vec![];
    assert_eq!(iface.read(&mut buf), Ok(()));
    assert!(buf.is_empty());
    assert_eq!(iface.i2c.remaining(), 0);
}

#[test]
fn irq_read_matches_status_variant() {
    let script = vec![ScriptStep::Reply {
        addr: 0x24,
        data: vec![0x00, 0x4B],
    }];
    let mut iface = I2CInterfaceWithIrq {
        i2c: ScriptedBus::new(script),
        irq: ScriptedPin::new(vec![]),
    };
    let mut buf = vec![0u8; 1];
    assert_eq!(iface.read(&mut buf), Ok(()));
    assert_eq!(buf, vec![0x4B]);
}

#[test]
fn irq_write_forwards_frame_unmodified() {
    let frame = vec![0x55, 0xAA];
    let script = vec![ScriptStep::ExpectWrite {
        addr: 0x24,
        data: frame.clone(),
    }];
    let mut iface = I2CInterfaceWithIrq {
        i2c: ScriptedBus::new(script),
        irq: ScriptedPin::new(vec![]),
    };
    assert_eq!(iface.write(&frame), Ok(()));
}

#[test]
fn write_empty_frame_is_forwarded() {
    let script = vec![ScriptStep::ExpectWrite {
        addr: 0x24,
        data: vec![],
    }];
    let mut iface = I2CInterface {
        i2c: ScriptedBus::new(script),
    };
    assert_eq!(iface.write(&[]), Ok(()));
    assert_eq!(iface.i2c.remaining(), 0);
}

#[test]
fn write_on_exhausted_script_errors() {
    let mut iface = I2CInterface {
        i2c: ScriptedBus::new(vec![]),
    };
    assert_eq!(
        iface.write(&[0x00]),
        Err(ScriptError {
            code: ERR_SCRIPT_EXHAUSTED
        })
    );
}

#[test]
fn blocking_wait_polls_until_ready() {
    let script = vec![
        ScriptStep::Reply {
            addr: 0x24,
            data: vec![0x00],
        },
        ScriptStep::Reply {
            addr: 0x24,
            data: vec![0x00],
        },
        ScriptStep::Reply {
            addr: 0x24,
            data: vec![0x01],
        },
    ];
    let mut iface = AsyncI2cInterface {
        i2c: ScriptedBus::new(script),
    };
    assert_eq!(iface.wait_ready(), Ok(()));
    // All three status reads were issued, none after the sentinel.
    assert_eq!(iface.i2c.remaining(), 0);
}

#[test]
fn blocking_wait_reads_at_least_once_when_already_ready() {
    let script = vec![
        ScriptStep::Reply {
            addr: 0x24,
            data: vec![0x01],
        },
        ScriptStep::Fail { code: 3 },
    ];
    let mut iface = AsyncI2cInterface {
        i2c: ScriptedBus::new(script),
    };
    assert_eq!(iface.wait_ready(), Ok(()));
    // Exactly one status read was issued: the second step is untouched.
    assert_eq!(iface.i2c.remaining(), 1);
}

#[test]
fn blocking_wait_surfaces_bus_error_unchanged() {
    let script = vec![
        ScriptStep::Reply {
            addr: 0x24,
            data: vec![0x00],
        },
        ScriptStep::Fail { code: 5 },
    ];
    let mut iface = AsyncI2cInterface {
        i2c: ScriptedBus::new(script),
    };
    assert_eq!(iface.wait_ready(), Err(ScriptError { code: 5 }));
}

#[test]
fn blocking_variant_write_and_read() {
    let frame = vec![0xD4, 0x4A, 0x01, 0x00];
    let script = vec![
        ScriptStep::ExpectWrite {
            addr: 0x24,
            data: frame.clone(),
        },
        ScriptStep::Reply {
            addr: 0x24,
            data: vec![0x01],
        },
        ScriptStep::Reply {
            addr: 0x24,
            data: vec![0xFF, 0xD5, 0x4B],
        },
    ];
    let mut iface = AsyncI2cInterface {
        i2c: ScriptedBus::new(script),
    };
    assert_eq!(iface.write(&frame), Ok(()));
    assert_eq!(iface.wait_ready(), Ok(()));
    let mut buf = vec![0u8; 2];
    assert_eq!(iface.read(&mut buf), Ok(()));
    assert_eq!(buf, vec![0xD5, 0x4B]);
    assert_eq!(iface.i2c.remaining(), 0);
}

#[test]
fn full_exchange_on_status_variant() {
    let command = vec![0xD4, 0x02];
    let script = vec![
        ScriptStep::ExpectWrite {
            addr: 0x24,
            data: command.clone(),
        },
        ScriptStep::Reply {
            addr: 0x24,
            data: vec![0x00],
        },
        ScriptStep::Reply {
            addr: 0x24,
            data: vec![0x01],
        },
        ScriptStep::Reply {
            addr: 0x24,
            data: vec![0x00, 0xD5, 0x03, 0x32],
        },
    ];
    let mut iface = I2CInterface {
        i2c: ScriptedBus::new(script),
    };
    assert_eq!(iface.write(&command), Ok(()));
    assert!(matches!(iface.wait_ready(), Readiness::Pending));
    assert!(matches!(iface.wait_ready(), Readiness::Ready));
    let mut buf = vec![0u8; 3];
    assert_eq!(iface.read(&mut buf), Ok(()));
    assert_eq!(buf, vec![0xD5, 0x03, 0x32]);
    assert_eq!(iface.i2c.remaining(), 0);
}
