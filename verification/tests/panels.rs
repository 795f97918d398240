use golem_core::boot::{bootcore_init, BootCoreConfig};
use golem_core::errors::{CoreError, LoadError, SaveStateError};
use golem_core::menu::{cores_panel_step, select_core_step, MenuAction, MenuReturn, PanelStep};
use golem_core::null::{NullCore, NullCoreManager, NullPlatform, NullSaveState};

#[test]
fn menu_action_back_and_sort() {
    assert_eq!(MenuAction::back(), Some(MenuAction::Back));
    assert_eq!(MenuAction::sort(), Some(MenuAction::ChangeSort));
    assert_eq!(MenuAction::default(), MenuAction::Back);
}

#[test]
fn menu_action_details_only_from_execute() {
    assert_eq!(
        MenuAction::ExecuteCore(3).into_details(),
        Some(MenuAction::ShowCoreDetails(3))
    );
    assert_eq!(MenuAction::Back.into_details(), None);
    assert_eq!(MenuAction::SelectCore(1).into_details(), None);
    assert_eq!(MenuAction::ManualLoad.into_details(), None);
}

#[test]
fn boot_config_scales_timeout_and_names_last_core() {
    let cfg = bootcore_init(&BootCoreConfig::LastCore, 3);
    assert_eq!(cfg.timeout, 30);
    assert_eq!(cfg.core_type, Some(b"lastcore".to_vec()));

    let cfg = bootcore_init(&BootCoreConfig::ExactLastCore, 100);
    assert_eq!(cfg.timeout, 1000);
    assert_eq!(cfg.core_type, Some(b"lastexactcore".to_vec()));

    let cfg = bootcore_init(&BootCoreConfig::CoreName(b"menu".to_vec()), 1);
    assert_eq!(cfg.core_type, None);
    let cfg = bootcore_init(&BootCoreConfig::NoBootCore, 0);
    assert_eq!(cfg.timeout, 0);
    assert_eq!(cfg.core_type, None);
}

#[test]
fn boot_config_is_last_core() {
    assert!(BootCoreConfig::LastCore.is_last_core());
    assert!(BootCoreConfig::ExactLastCore.is_last_core());
    assert!(!BootCoreConfig::NoBootCore.is_last_core());
    assert!(!BootCoreConfig::CoreName(b"x".to_vec()).is_last_core());
}

#[test]
fn null_core_manager_never_instantiates() {
    let mut manager = NullCoreManager;
    assert_eq!(
        manager.load_core(&[1, 2]).unwrap_err(),
        LoadError::InstantiationFailed
    );
    assert_eq!(
        manager.get_current_core().unwrap_err(),
        LoadError::InstantiationFailed
    );
    assert_eq!(manager.load_menu().unwrap_err(), LoadError::InstantiationFailed);
    manager.show_menu();
    manager.hide_menu();
}

#[test]
fn null_core_is_inert() {
    let mut core = NullCore::new();
    assert_eq!(core.name(), Vec::<u8>::new());
    assert_eq!(core.version(), None);
    assert_eq!(core.load_file(&[1], 0), Err(CoreError::UnsupportedSlot));
    assert_eq!(core.mount_sav(), Err(CoreError::IoError));
    assert_eq!(core.check_sav(), Err(CoreError::IoError));
    assert_eq!(core.menu_options(), Vec::<Vec<u8>>::new());
    assert_eq!(core.trigger_menu(0), Err(CoreError::ActionFailed));
    assert_eq!(core.status_mask(), 0);
    assert_eq!(core.status_bits(), 0);
    core.set_status_bits(0xff);
    assert_eq!(core.status_bits(), 0);
    assert_eq!(core.take_screenshot(), Err(CoreError::CaptureFailed));
    assert!(core.save_states().is_none());
}

#[test]
fn null_save_state_has_zero_size() {
    let mut s = NullSaveState;
    assert!(!s.is_dirty());
    assert_eq!(s.write_to(), Vec::<u8>::new());
    assert_eq!(s.read_from(&[]), Ok(()));
    assert_eq!(s.read_from(&[1]), Err(SaveStateError::SizeMismatch));
}

#[test]
fn null_platform_has_no_events() {
    let mut platform = NullPlatform::default();
    platform.init();
    platform.start_loop();
    assert_eq!(platform.toolbar_dimensions().width, 0);
    assert_eq!(platform.main_dimensions().height, 0);
    let batch = platform.events();
    assert_eq!(batch.events().len(), 0);
    platform
        .core_manager_mut()
        .load_menu()
        .expect_err("the stand-in never instantiates a core");
    platform.end_loop();
}

#[test]
fn select_core_panel_decisions() {
    assert_eq!(select_core_step(MenuAction::Back, 3), PanelStep::Leave);
    assert_eq!(select_core_step(MenuAction::SelectCore(1), 3), PanelStep::Launch(1));
    assert_eq!(select_core_step(MenuAction::SelectCore(3), 3), PanelStep::Stay);
    assert_eq!(select_core_step(MenuAction::ChangeSort, 3), PanelStep::Resort);
    assert_eq!(select_core_step(MenuAction::Manage, 3), PanelStep::Stay);
    assert_eq!(select_core_step(MenuAction::ShowCoreDetails(0), 3), PanelStep::Stay);
}

#[test]
fn cores_menu_panel_decisions() {
    assert_eq!(cores_panel_step(MenuAction::Back, 2), PanelStep::Leave);
    assert_eq!(cores_panel_step(MenuAction::Manage, 2), PanelStep::OpenManage);
    assert_eq!(cores_panel_step(MenuAction::ManualLoad, 2), PanelStep::PickFile);
    assert_eq!(cores_panel_step(MenuAction::ExecuteCore(0), 2), PanelStep::Launch(0));
    assert_eq!(cores_panel_step(MenuAction::SelectCore(1), 2), PanelStep::Launch(1));
    assert_eq!(cores_panel_step(MenuAction::ExecuteCore(2), 2), PanelStep::Stay);
    assert_eq!(
        cores_panel_step(MenuAction::ShowCoreDetails(1), 2),
        PanelStep::ShowDetails(1)
    );
    assert_eq!(cores_panel_step(MenuAction::ChangeSort, 2), PanelStep::Resort);
}
