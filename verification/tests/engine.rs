use golem_core::core_manager::CoreManager;
use golem_core::errors::{CoreError, LoadError};
use golem_core::fpga::{CoreConfig, Fpga, FpgaState};

fn demo_config() -> CoreConfig {
    CoreConfig {
        name: b"demo".to_vec(),
        version: Some(b"1.0".to_vec()),
        options: vec![b"Scanlines".to_vec(), b"Aspect Ratio".to_vec()],
        status_mask: 0xff,
        save_sizes: vec![16, 32],
    }
}

fn responsive_device() -> Fpga {
    Fpga::new(true, true, true, demo_config())
}

#[test]
fn load_program_success_disables_overlay() {
    let mut manager = CoreManager::new(responsive_device());
    let program: Vec<u8> = vec![9, 9, 9];
    let core = manager.load_program(&program).expect("load should succeed");
    assert_eq!(manager.fpga().state, FpgaState::Running);
    assert_eq!(manager.fpga().program_count, 1);
    assert!(!manager.fpga().osd_enabled);
    assert!(manager.is_current(&core));
    assert_eq!(core.name(), &b"demo".to_vec());
    assert_eq!(core.version().unwrap(), &b"1.0".to_vec());
    assert_eq!(core.menu_options().len(), 2);
    assert_eq!(core.status_bits(), 0);
    assert_eq!(core.status_mask(), 0xff);
}

#[test]
fn load_menu_enables_overlay() {
    let mut manager = CoreManager::new(responsive_device());
    let core = manager.load_menu().expect("menu load should succeed");
    assert!(manager.fpga().osd_enabled);
    assert!(manager.is_current(&core));
    assert_eq!(manager.fpga().state, FpgaState::Running);
}

#[test]
fn load_rejects_malformed_container() {
    let mut manager = CoreManager::new(responsive_device());
    let mut buf = b"MiSTer".to_vec();
    buf.extend_from_slice(&[0, 0, 0, 0, 0, 0]);
    buf.extend_from_slice(&[200, 0, 0, 0]);
    buf.extend_from_slice(&[1, 2, 3]);
    assert_eq!(
        manager.load_program(&buf).unwrap_err(),
        LoadError::MalformedContainer
    );
    // No partial extraction, no device interaction.
    assert_eq!(manager.fpga().program_count, 0);
    assert_eq!(manager.fpga().state, FpgaState::NotReady);
}

#[test]
fn load_reports_program_rejected() {
    let mut manager = CoreManager::new(Fpga::new(true, false, true, demo_config()));
    let err = manager.load_program(&[1, 2, 3]).unwrap_err();
    assert_eq!(err, LoadError::ProgramRejected);
    assert_eq!(manager.fpga().program_count, 1);
    assert_eq!(manager.fpga().state, FpgaState::Ready);
}

#[test]
fn load_reports_reset_failed() {
    let mut manager = CoreManager::new(Fpga::new(true, true, false, demo_config()));
    let err = manager.load_program(&[1, 2, 3]).unwrap_err();
    assert_eq!(err, LoadError::ResetFailed);
    assert_eq!(manager.fpga().state, FpgaState::Programming);
}

#[test]
fn load_reports_instantiation_failed() {
    let nameless = CoreConfig {
        name: Vec::new(),
        version: None,
        options: Vec::new(),
        status_mask: 0,
        save_sizes: Vec::new(),
    };
    let mut manager = CoreManager::new(Fpga::new(true, true, true, nameless));
    let err = manager.load_program(&[1, 2, 3]).unwrap_err();
    assert_eq!(err, LoadError::InstantiationFailed);
    assert_eq!(manager.fpga().state, FpgaState::Running);
}

#[test]
fn overlay_toggles_never_program() {
    let mut manager = CoreManager::new(responsive_device());
    manager.load_menu().expect("menu load");
    let programmed = manager.fpga().program_count;
    manager.hide_menu();
    assert!(!manager.fpga().osd_enabled);
    manager.show_menu();
    assert!(manager.fpga().osd_enabled);
    manager.show_menu();
    manager.hide_menu();
    // The programming-call counter is unchanged across overlay toggles.
    assert_eq!(manager.fpga().program_count, programmed);
    assert_eq!(manager.fpga().state, FpgaState::Running);
}

#[test]
fn menu_load_recovers_after_device_timeout() {
    let mut manager = CoreManager::new(Fpga::new(false, true, true, demo_config()));
    let err = manager.load_program(&[4, 5, 6]).unwrap_err();
    assert_eq!(err, LoadError::DeviceTimeout);
    assert_eq!(manager.fpga().state, FpgaState::NotReady);

    // The device comes back; the caller recovers by loading the menu core.
    manager.fpga_mut().link_ready = true;
    let menu_core = manager.load_menu().expect("menu load after recovery");
    assert!(manager.is_current(&menu_core));
    assert!(manager.fpga().osd_enabled);
    assert_eq!(manager.fpga().state, FpgaState::Running);
}

#[test]
fn new_load_invalidates_previous_core() {
    let mut manager = CoreManager::new(responsive_device());
    let first = manager.load_program(&[1]).expect("first load");
    assert!(manager.is_current(&first));
    let second = manager.load_menu().expect("second load");
    assert!(manager.is_current(&second));
    assert!(!manager.is_current(&first));
}

#[test]
fn trigger_menu_toggles_status_bit() {
    let mut manager = CoreManager::new(responsive_device());
    let mut core = manager.load_program(&[1]).expect("load");
    assert_eq!(core.trigger_menu(1), Ok(false));
    assert_eq!(core.status_bits(), 0b10);
    assert_eq!(core.trigger_menu(1), Ok(false));
    assert_eq!(core.status_bits(), 0);
    assert_eq!(core.trigger_menu(5), Err(CoreError::ActionFailed));
}

#[test]
fn set_status_bits_respects_mask() {
    let mut manager = CoreManager::new(responsive_device());
    let mut core = manager.load_program(&[1]).expect("load");
    core.set_status_bits(0xffff);
    assert_eq!(core.status_bits(), 0xff);
}

#[test]
fn load_file_supports_slot_zero_only() {
    let mut manager = CoreManager::new(responsive_device());
    let mut core = manager.load_program(&[1]).expect("load");
    assert_eq!(core.load_file(&[7, 7], 1), Err(CoreError::UnsupportedSlot));
    assert_eq!(core.rom, Vec::<u8>::new());
    assert_eq!(core.load_file(&[7, 7], 0), Ok(()));
    assert_eq!(core.rom, vec![7, 7]);
}

#[test]
fn sav_must_be_mounted_before_check() {
    let mut manager = CoreManager::new(responsive_device());
    let mut core = manager.load_program(&[1]).expect("load");
    assert_eq!(core.check_sav(), Err(CoreError::IoError));
    assert_eq!(core.mount_sav(), Ok(()));
    assert_eq!(core.check_sav(), Ok(()));
}

#[test]
fn screenshot_needs_a_presented_frame() {
    let mut manager = CoreManager::new(responsive_device());
    let mut core = manager.load_program(&[1]).expect("load");
    assert_eq!(core.take_screenshot(), Err(CoreError::CaptureFailed));
    core.present_frame(&[1, 2, 3]);
    assert_eq!(core.take_screenshot(), Ok(vec![1, 2, 3]));
}

#[test]
fn save_slots_follow_the_described_sizes() {
    let mut manager = CoreManager::new(responsive_device());
    let core = manager.load_program(&[1]).expect("load");
    let slots = core.save_states().expect("two slots were described");
    assert_eq!(slots.len(), 2);
    assert_eq!(slots[0].size(), 16);
    assert_eq!(slots[1].size(), 32);
    assert!(!slots[0].is_dirty());
}
