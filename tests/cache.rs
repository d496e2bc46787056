use sayo_rs::cmd_response::CmdResponseObject;
use sayo_rs::raw::{DeviceInfoRaw, KeyDataRaw, KeyInfoRaw};
use sayo_rs::session::{DeviceSession, StructureKind};
use sayo_rs::structure::{missing, BindingChange, SayoObject};
use sayo_rs::{DeviceInfo, DeviceInfoDiff, KeyData, KeyInfo, SayoDevice};

const UUID: u128 = 0x0123_4567_89ab_cdef_0011_2233_4455_6677;

fn info_with_key_fn(key_fn: Option<u8>) -> DeviceInfoRaw {
    let mut raw = DeviceInfoRaw::empty();
    raw.key_fn = key_fn;
    raw
}

fn full_info() -> DeviceInfoRaw {
    DeviceInfoRaw {
        model_code: Some(0x1234),
        ver: Some(7),
        usb0_ori: Some(1),
        usb0_offset: Some(2),
        usb1_ori: Some(3),
        usb1_offset: Some(4),
        batt_lv: Some(88),
        key_fn: Some(2),
        cpu_load_1s: Some(15),
        cpu_load_1ms: Some(40),
        api_list: Some(vec![0x01, 0x02, 0x10]),
    }
}

fn binding(mode: u8) -> KeyDataRaw {
    KeyDataRaw {
        key_mode: Some(mode),
        key_opt0: Some(1),
        key_opt1: None,
        key_opt2: Some(3),
        key_val: Some(vec![4, 5, 6, 7]),
    }
}

fn key_record(x: u16) -> KeyInfoRaw {
    KeyInfoRaw {
        valid: Some(1),
        key_class: Some(2),
        key_site_x: Some(x),
        key_site_y: Some(20),
        key_width: Some(30),
        key_height: Some(40),
        fillet_angle: Some(5),
        key_fn: Some(vec![binding(1), binding(2)]),
    }
}

#[test]
fn missing_names_the_field() {
    assert_eq!(missing("batt_lv"), "batt_lv unavailable");
    assert_eq!(missing(""), " unavailable");
}

#[test]
fn absent_device_info_fields_are_unavailable() {
    let d = DeviceInfo::new(SayoDevice::new(UUID), DeviceInfoRaw::empty());
    assert_eq!(d.model_code(), Err("model_code unavailable".to_string()));
    assert_eq!(d.ver(), Err("ver unavailable".to_string()));
    assert_eq!(d.usb0_ori(), Err("usb0_ori unavailable".to_string()));
    assert_eq!(d.usb0_offset(), Err("usb0_offset unavailable".to_string()));
    assert_eq!(d.usb1_ori(), Err("usb1_ori unavailable".to_string()));
    assert_eq!(d.usb1_offset(), Err("usb1_offset unavailable".to_string()));
    assert_eq!(d.batt_lv(), Err("batt_lv unavailable".to_string()));
    assert_eq!(d.key_fn(), Err("key_fn unavailable".to_string()));
    assert_eq!(d.cpu_load_1s(), Err("cpu_load_1s unavailable".to_string()));
    assert_eq!(d.cpu_load_1ms(), Err("cpu_load_1ms unavailable".to_string()));
    assert_eq!(d.api_list(), Err("api_list unavailable".to_string()));
}

#[test]
fn present_device_info_fields_are_read() {
    let d = DeviceInfo::new(SayoDevice::new(UUID), full_info());
    assert_eq!(d.uuid(), UUID);
    assert_eq!(d.model_code(), Ok(0x1234));
    assert_eq!(d.ver(), Ok(7));
    assert_eq!(d.usb0_ori(), Ok(1));
    assert_eq!(d.usb0_offset(), Ok(2));
    assert_eq!(d.usb1_ori(), Ok(3));
    assert_eq!(d.usb1_offset(), Ok(4));
    assert_eq!(d.batt_lv(), Ok(88));
    assert_eq!(d.key_fn(), Ok(2));
    assert_eq!(d.cpu_load_1s(), Ok(15));
    assert_eq!(d.cpu_load_1ms(), Ok(40));
    assert_eq!(d.api_list(), Ok(vec![0x01, 0x02, 0x10]));
}

#[test]
fn absent_key_fields_are_unavailable() {
    let k = KeyInfo::new(0, SayoDevice::new(UUID), KeyInfoRaw::default());
    assert_eq!(k.valid(), Err("valid unavailable".to_string()));
    assert_eq!(k.key_class(), Err("key_class unavailable".to_string()));
    assert_eq!(k.x(), Err("x unavailable".to_string()));
    assert_eq!(k.y(), Err("y unavailable".to_string()));
    assert_eq!(k.width(), Err("width unavailable".to_string()));
    assert_eq!(k.height(), Err("height unavailable".to_string()));
    assert_eq!(k.corner_radius(), Err("corner_radius unavailable".to_string()));
    assert_eq!(k.key_fn().len(), 0);

    let b = KeyData::new(KeyDataRaw::default());
    assert_eq!(b.key_mode(), Err("key_mode unavailable".to_string()));
    assert_eq!(b.key_opt0(), Err("key_opt0 unavailable".to_string()));
    assert_eq!(b.key_opt1(), Err("key_opt1 unavailable".to_string()));
    assert_eq!(b.key_opt2(), Err("key_opt2 unavailable".to_string()));
    assert_eq!(b.key_val(), Err("key_val unavailable".to_string()));
}

#[test]
fn key_info_fields_and_bindings_are_read() {
    let k = KeyInfo::new(3, SayoDevice::new(UUID), key_record(10));
    assert_eq!(k.id(), 3);
    assert_eq!(k.valid(), Ok(1));
    assert_eq!(k.key_class(), Ok(2));
    assert_eq!(k.x(), Ok(10));
    assert_eq!(k.y(), Ok(20));
    assert_eq!(k.width(), Ok(30));
    assert_eq!(k.height(), Ok(40));
    assert_eq!(k.corner_radius(), Ok(5));
    let bindings = k.key_fn();
    assert_eq!(bindings.len(), 2);
    assert_eq!(bindings[0].key_mode(), Ok(1));
    assert_eq!(bindings[1].key_mode(), Ok(2));
    assert_eq!(bindings[1].key_opt1(), Err("key_opt1 unavailable".to_string()));
    assert_eq!(bindings[1].key_val(), Ok(vec![4, 5, 6, 7]));
}

#[test]
fn binding_changes_write_back_through_the_key() {
    let mut k = KeyInfo::new(0, SayoDevice::new(UUID), key_record(10));
    assert_eq!(k.pending_write_count(), 0);
    assert!(k.set_key_mode(1, 42));
    assert_eq!(k.pending_write_count(), 1);
    assert!(k.set_key_opt0(1, 10));
    assert!(k.set_key_opt1(0, 11));
    assert!(k.set_key_opt2(0, 12));
    assert!(k.set_key_val(1, vec![1, 2]));
    assert_eq!(k.pending_write_count(), 5);
    let bindings = k.key_fn();
    assert_eq!(bindings[1].key_mode(), Ok(42));
    assert_eq!(bindings[1].key_opt0(), Ok(10));
    assert_eq!(bindings[1].key_val(), Ok(vec![1, 2]));
    assert_eq!(bindings[0].key_mode(), Ok(1));
    assert_eq!(bindings[0].key_opt1(), Ok(11));
    assert_eq!(bindings[0].key_opt2(), Ok(12));
    let writes = k.take_pending_writes();
    assert_eq!(writes.len(), 5);
    assert_eq!(writes[0].key_fn.as_ref().unwrap()[1].key_mode, Some(42));
    assert_eq!(writes[0].key_fn.as_ref().unwrap()[1].key_opt0, Some(1));
    assert_eq!(writes[4].key_fn.as_ref().unwrap()[1].key_val, Some(vec![1, 2]));
    assert_eq!(writes[4].key_site_x, Some(10));
    assert_eq!(k.pending_write_count(), 0);
}

#[test]
fn setting_the_same_binding_value_still_writes() {
    let mut k = KeyInfo::new(0, SayoDevice::new(UUID), key_record(10));
    assert!(k.set_key_mode(0, 1));
    assert!(k.set_key_mode(0, 1));
    assert_eq!(k.pending_write_count(), 2);
}

#[test]
fn change_of_a_missing_binding_does_nothing() {
    let mut k = KeyInfo::new(0, SayoDevice::new(UUID), key_record(10));
    assert!(!k.set_key_mode(2, 9));
    assert!(!k.change_binding(5, BindingChange::KeyOpt2(1)));
    assert_eq!(k.pending_write_count(), 0);
    assert_eq!(k.key_fn()[0].key_mode(), Ok(1));
    let mut bare = KeyInfo::new(1, SayoDevice::new(UUID), KeyInfoRaw::default());
    assert!(!bare.set_key_val(0, vec![3]));
    assert_eq!(bare.pending_write_count(), 0);
}

#[test]
fn diff_rule_for_key_fn() {
    assert_eq!(DeviceInfoDiff::between(None, Some(3)), DeviceInfoDiff { key_fn_changed: Some(3) });
    assert_eq!(DeviceInfoDiff::between(Some(3), Some(3)), DeviceInfoDiff { key_fn_changed: None });
    assert_eq!(DeviceInfoDiff::between(Some(3), Some(5)), DeviceInfoDiff { key_fn_changed: Some(5) });
    assert_eq!(DeviceInfoDiff::between(None, None), DeviceInfoDiff { key_fn_changed: None });
    assert_eq!(DeviceInfoDiff::between(Some(3), None), DeviceInfoDiff { key_fn_changed: None });
}

#[test]
fn diff_through_passive_apply() {
    let cases: [(Option<u8>, Option<u8>, Option<u8>); 4] =
        [(None, Some(3), Some(3)), (Some(3), Some(3), None), (Some(3), Some(5), Some(5)), (None, None, None)];
    for (old, new, expected) in cases {
        let mut d = DeviceInfo::from_cmd_response_bytes(UUID, info_with_key_fn(old));
        let diff = d.apply_cmd_response_local_bytes(&info_with_key_fn(new));
        assert_eq!(diff.key_fn_changed, expected);
        assert_eq!(d.pending_write_count(), 0);
    }
}

#[test]
fn key_fn_broadcast_scenario() {
    let mut d = DeviceInfo::from_cmd_response_bytes(UUID, info_with_key_fn(Some(2)));
    assert_eq!(d.key_fn(), Ok(2));
    let diff = d.apply_cmd_response_local_bytes(&info_with_key_fn(Some(4)));
    assert_eq!(diff, DeviceInfoDiff { key_fn_changed: Some(4) });
    assert_eq!(d.key_fn(), Ok(4));
    assert_eq!(d.pending_write_count(), 0);
    assert_eq!(d.take_pending_writes().len(), 0);
}

#[test]
fn passive_updates_never_write() {
    let mut d = DeviceInfo::from_cmd_response_bytes(UUID, full_info());
    for i in 0..50u8 {
        let mut p = full_info();
        p.key_fn = Some(i % 7);
        p.batt_lv = Some(i);
        d.apply_cmd_response_local_bytes(&p);
        d.set_key_fn_local(i);
    }
    assert_eq!(d.pending_write_count(), 0);
    let mut via_trait = <DeviceInfo as CmdResponseObject>::from_cmd_response_bytes(UUID, full_info());
    let diff = CmdResponseObject::apply_cmd_response_local_bytes(&mut via_trait, &info_with_key_fn(Some(9)));
    assert_eq!(diff.key_fn_changed, Some(9));
    assert_eq!(via_trait.pending_write_count(), 0);
}

#[test]
fn passive_update_is_a_merge() {
    let mut d = DeviceInfo::from_cmd_response_bytes(UUID, full_info());
    let mut p = DeviceInfoRaw::empty();
    p.batt_lv = Some(12);
    let diff = d.apply_cmd_response_local_bytes(&p);
    assert_eq!(diff.key_fn_changed, None);
    assert_eq!(d.batt_lv(), Ok(12));
    assert_eq!(d.model_code(), Ok(0x1234));
    assert_eq!(d.ver(), Ok(7));
    assert_eq!(d.key_fn(), Ok(2));
    assert_eq!(d.cpu_load_1ms(), Ok(40));
    assert_eq!(d.api_list(), Ok(vec![0x01, 0x02, 0x10]));

    let mut q = DeviceInfoRaw::empty();
    q.api_list = Some(vec![9]);
    d.apply_cmd_response_local_bytes(&q);
    assert_eq!(d.api_list(), Ok(vec![9]));
    assert_eq!(d.batt_lv(), Ok(12));
}

#[test]
fn active_setter_writes_once_per_call() {
    let mut d = DeviceInfo::new(SayoDevice::new(UUID), full_info());
    d.set_key_fn(2);
    assert_eq!(d.pending_write_count(), 1);
    d.set_key_fn(2);
    assert_eq!(d.pending_write_count(), 2);
    d.set_key_fn(6);
    assert_eq!(d.pending_write_count(), 3);
    let writes = d.take_pending_writes();
    let sent: Vec<Option<u8>> = writes.iter().map(|w| w.key_fn).collect();
    assert_eq!(sent, vec![Some(2), Some(2), Some(6)]);
    assert_eq!(writes[2].batt_lv, Some(88));
    assert_eq!(d.pending_write_count(), 0);
    d.end_change();
    assert_eq!(d.pending_write_count(), 1);
}

#[test]
fn serialized_setters_end_on_one_input() {
    let shared = std::sync::Arc::new(std::sync::Mutex::new(DeviceInfo::new(SayoDevice::new(UUID), full_info())));
    let values: Vec<u8> = vec![11, 22, 33, 44, 55];
    for v in &values {
        let mut guard = shared.lock().unwrap();
        guard.set_key_fn(*v);
    }
    let mut d = shared.lock().unwrap();
    let last = d.key_fn().unwrap();
    assert!(values.contains(&last));
    assert_eq!(last, 55);
    let writes = d.take_pending_writes();
    assert_eq!(writes.len(), values.len());
    for (w, v) in writes.iter().zip(values.iter()) {
        assert_eq!(w.key_fn, Some(*v));
        assert_eq!(w.model_code, Some(0x1234));
    }
}

#[test]
fn device_read_results_are_wrapped() {
    let dev = SayoDevice::new(UUID);
    assert_eq!(dev.uuid(), UUID);
    match dev.device_info(None) {
        Err(e) => assert_eq!(e, "device_info unavailable"),
        Ok(_) => panic!("expected an error"),
    }
    let d = dev.device_info(Some(full_info())).unwrap();
    assert_eq!(d.uuid(), UUID);
    assert_eq!(d.key_fn(), Ok(2));
    assert_eq!(d.pending_write_count(), 0);

    let keys = dev.key_infos(vec![key_record(1), key_record(2), key_record(3)]).unwrap();
    assert_eq!(keys.len(), 3);
    for (i, k) in keys.iter().enumerate() {
        assert_eq!(k.id() as usize, i);
        assert_eq!(k.x(), Ok(i as u16 + 1));
    }
    assert_eq!(dev.key_infos(Vec::new()).unwrap().len(), 0);
}

#[test]
fn key_list_longer_than_ids_is_refused() {
    let dev = SayoDevice::new(UUID);
    let keys = dev.key_infos((0..256u16).map(key_record).collect()).unwrap();
    assert_eq!(keys.len(), 256);
    assert_eq!(keys[0].id(), 0);
    assert_eq!(keys[255].id(), 255);
    assert_eq!(keys[255].x(), Ok(255));
    match dev.key_infos((0..257u16).map(key_record).collect()) {
        Err(e) => assert_eq!(e, "key list holds more than 256 keys"),
        Ok(_) => panic!("expected an error"),
    }
    let mut session = DeviceSession::new(dev);
    assert_eq!(
        session.complete_key_infos((0..257u16).map(key_record).collect()),
        Err("key list holds more than 256 keys".to_string())
    );
    assert_eq!(session.key_info_count(), 0);
    assert_eq!(session.init_key_infos(), Some(StructureKind::KeyInfos));
}

#[test]
fn session_routes_binding_changes_to_the_key() {
    let mut session = DeviceSession::new(SayoDevice::new(UUID));
    assert!(!session.change_key_binding(0, 0, BindingChange::KeyMode(5)));
    assert_eq!(session.take_key_writes(0).len(), 0);
    assert_eq!(session.complete_key_infos(vec![key_record(1), key_record(2)]), Ok(()));
    assert!(session.change_key_binding(1, 0, BindingChange::KeyMode(5)));
    assert!(!session.change_key_binding(1, 2, BindingChange::KeyMode(5)));
    assert!(!session.change_key_binding(2, 0, BindingChange::KeyMode(5)));
    assert_eq!(session.key_info(1).unwrap().pending_write_count(), 1);
    assert_eq!(session.key_info(0).unwrap().pending_write_count(), 0);
    assert_eq!(session.key_info(1).unwrap().key_fn()[0].key_mode(), Ok(5));
    let writes = session.take_key_writes(1);
    assert_eq!(writes.len(), 1);
    assert_eq!(writes[0].key_fn.as_ref().unwrap()[0].key_mode, Some(5));
    assert_eq!(writes[0].key_site_x, Some(2));
    assert_eq!(session.take_key_writes(1).len(), 0);
    assert_eq!(session.take_key_writes(0).len(), 0);
    assert_eq!(session.key_info(1).unwrap().id(), 1);
}

/// Stands for a device: counts reads and answers them.
struct FakeDevice {
    reads: usize,
    info: Option<DeviceInfoRaw>,
}

fn init_device_info(session: &mut DeviceSession, dev: &mut FakeDevice) {
    if let Some(StructureKind::DeviceInfo) = session.init_device_info() {
        dev.reads += 1;
        session.complete_device_info(dev.info.clone());
    }
}

#[test]
fn init_reads_once() {
    let mut session = DeviceSession::new(SayoDevice::new(UUID));
    let mut dev = FakeDevice { reads: 0, info: Some(full_info()) };
    init_device_info(&mut session, &mut dev);
    assert_eq!(dev.reads, 1);
    init_device_info(&mut session, &mut dev);
    init_device_info(&mut session, &mut dev);
    assert_eq!(dev.reads, 1);
    assert_eq!(session.device_info().unwrap().key_fn(), Ok(2));
}

#[test]
fn init_without_data_leaves_slot_empty() {
    let mut session = DeviceSession::new(SayoDevice::new(UUID));
    let mut dev = FakeDevice { reads: 0, info: None };
    init_device_info(&mut session, &mut dev);
    assert!(session.device_info().is_none());
    assert_eq!(session.init_device_info(), Some(StructureKind::DeviceInfo));
    dev.info = Some(full_info());
    init_device_info(&mut session, &mut dev);
    assert_eq!(dev.reads, 2);
    assert!(session.device_info().is_some());
    assert_eq!(session.init_device_info(), None);
}

#[test]
fn key_slot_is_filled_once() {
    let mut session = DeviceSession::new(SayoDevice::new(UUID));
    assert_eq!(session.init_key_infos(), Some(StructureKind::KeyInfos));
    assert_eq!(session.complete_key_infos(Vec::new()), Ok(()));
    assert_eq!(session.key_info_count(), 0);
    assert_eq!(session.init_key_infos(), Some(StructureKind::KeyInfos));
    assert_eq!(session.complete_key_infos(vec![key_record(1), key_record(2)]), Ok(()));
    assert_eq!(session.init_key_infos(), None);
    assert_eq!(session.key_info_count(), 2);
    assert_eq!(session.key_info(1).unwrap().id(), 1);
    assert_eq!(session.key_info(1).unwrap().x(), Ok(2));
    assert!(session.key_info(2).is_none());
    assert_eq!(session.complete_key_infos(vec![key_record(7)]), Ok(()));
    assert_eq!(session.complete_key_infos((0..257u16).map(key_record).collect()), Ok(()));
    assert_eq!(session.key_info_count(), 2);
}

#[test]
fn session_routes_active_and_passive_updates() {
    let mut session = DeviceSession::new(SayoDevice::new(UUID));
    assert_eq!(session.device().uuid(), UUID);
    assert!(!session.set_key_fn(1));
    assert_eq!(session.take_device_info_writes().len(), 0);

    let diff = session.apply_device_info_report(&info_with_key_fn(Some(2)));
    assert_eq!(diff.key_fn_changed, Some(2));
    let diff = session.apply_device_info_report(&info_with_key_fn(Some(4)));
    assert_eq!(diff.key_fn_changed, Some(4));
    let diff = session.apply_device_info_report(&info_with_key_fn(Some(4)));
    assert_eq!(diff.key_fn_changed, None);
    assert_eq!(session.take_device_info_writes().len(), 0);

    assert!(session.set_key_fn(4));
    let writes = session.take_device_info_writes();
    assert_eq!(writes.len(), 1);
    assert_eq!(writes[0].key_fn, Some(4));
    assert_eq!(session.take_device_info_writes().len(), 0);
}

#[test]
fn key_reports_merge_without_writing() {
    let mut session = DeviceSession::new(SayoDevice::new(UUID));
    assert!(!session.apply_key_info_report(0, &key_record(9)));
    assert_eq!(session.complete_key_infos(vec![key_record(1), key_record(2)]), Ok(()));
    let mut p = KeyInfoRaw::default();
    p.key_width = Some(99);
    p.key_fn = Some(vec![binding(7)]);
    assert!(session.apply_key_info_report(1, &p));
    assert!(!session.apply_key_info_report(2, &p));
    let k = session.key_info(1).unwrap();
    assert_eq!(k.width(), Ok(99));
    assert_eq!(k.x(), Ok(2));
    assert_eq!(k.height(), Ok(40));
    assert_eq!(k.key_fn().len(), 1);
    assert_eq!(k.key_fn()[0].key_mode(), Ok(7));
    assert_eq!(k.pending_write_count(), 0);
    assert_eq!(session.key_info(0).unwrap().width(), Ok(30));
    assert_eq!(session.take_key_writes(1).len(), 0);
}

#[test]
fn trait_entry_points_build_and_merge() {
    let d = <DeviceInfo as CmdResponseObject>::from_cmd_response_bytes(UUID, full_info());
    assert_eq!(d.uuid(), UUID);
    assert_eq!(d.batt_lv(), Ok(88));
    assert_eq!(d.api_list(), Ok(vec![0x01, 0x02, 0x10]));
    let mut d = d;
    let mut p = DeviceInfoRaw::empty();
    p.key_fn = Some(2);
    p.ver = Some(8);
    let diff = CmdResponseObject::apply_cmd_response_local_bytes(&mut d, &p);
    assert_eq!(diff, DeviceInfoDiff { key_fn_changed: None });
    assert_eq!(d.ver(), Ok(8));
    assert_eq!(d.model_code(), Ok(0x1234));
    p.key_fn = Some(6);
    let diff = CmdResponseObject::apply_cmd_response_local_bytes(&mut d, &p);
    assert_eq!(diff, DeviceInfoDiff { key_fn_changed: Some(6) });
    assert_eq!(d.key_fn(), Ok(6));
    assert_eq!(d.pending_write_count(), 0);
}
