use golem_core::core_loop::{
    directive_for, CommandId, CommandResult, CoreLoop, EventLoopState, LoopDirective,
    ShortcutEntry,
};
use golem_core::core_manager::CoreManager;
use golem_core::fpga::{CoreConfig, Fpga};
use golem_core::input::{ButtonRef, CoreInput, Event};
use golem_core::shortcut::Shortcut;

fn demo_core() -> (CoreManager, golem_core::active_core::FpgaCore) {
    let config = CoreConfig {
        name: b"demo".to_vec(),
        version: None,
        options: Vec::new(),
        status_mask: 0,
        save_sizes: Vec::new(),
    };
    let mut manager = CoreManager::new(Fpga::new(true, true, true, config));
    let core = manager.load_program(&[1, 2, 3]).expect("load");
    (manager, core)
}

fn batch(events: Vec<Event>) -> EventLoopState {
    EventLoopState::new(events)
}

#[test]
fn key_repeats_register_once_but_forward_every_event() {
    let (_manager, mut core) = demo_core();
    let mut lp = CoreLoop::new(Vec::new());
    lp.process_batch(
        &mut core,
        &batch(vec![
            Event::KeyDown { scancode: 30, repeat: false },
            Event::KeyDown { scancode: 30, repeat: true },
            Event::KeyDown { scancode: 30, repeat: true },
        ]),
    );
    // The input state registered exactly one pressed transition.
    assert!(lp.inputs().key_pressed(30));
    assert!(!lp.inputs().is_empty());
    // The core received one forwarded event per physical key-down.
    assert_eq!(core.received.len(), 3);
    for ev in core.received.iter() {
        assert_eq!(*ev, CoreInput::KeyDown { scancode: 30 });
    }
}

#[test]
fn key_up_always_registers() {
    let (_manager, mut core) = demo_core();
    let mut lp = CoreLoop::new(Vec::new());
    lp.process_batch(
        &mut core,
        &batch(vec![
            Event::KeyDown { scancode: 30, repeat: false },
            Event::KeyUp { scancode: 30 },
        ]),
    );
    assert!(!lp.inputs().key_pressed(30));
    assert!(lp.inputs().is_empty());
    assert_eq!(core.received.len(), 2);
    assert_eq!(core.received[1], CoreInput::KeyUp { scancode: 30 });
}

#[test]
fn controller_identifiers_become_zero_based_indices() {
    let (_manager, mut core) = demo_core();
    let mut lp = CoreLoop::new(Vec::new());
    lp.process_batch(
        &mut core,
        &batch(vec![
            Event::ControllerButtonDown { which: 1, button: 4 },
            Event::ControllerButtonDown { which: 2, button: 5 },
            Event::ControllerButtonUp { which: 2, button: 5 },
            Event::ControllerAxisMotion { which: 1, axis: 0, value: -300 },
        ]),
    );
    assert_eq!(core.received[0], CoreInput::ButtonDown { index: 0, button: 4 });
    assert_eq!(core.received[1], CoreInput::ButtonDown { index: 1, button: 5 });
    assert_eq!(core.received[2], CoreInput::ButtonUp { index: 1, button: 5 });
    assert_eq!(
        core.received[3],
        CoreInput::AxisMotion { index: 0, axis: 0, value: -300 }
    );
    assert!(lp.inputs().button_pressed(1, 4));
    assert!(!lp.inputs().button_pressed(2, 5));
    assert_eq!(lp.inputs().axis_value(1, 0), Some(-300));
    assert_eq!(lp.inputs().axis_value(1, 1), None);
}

#[test]
fn axis_motion_keeps_the_latest_sample() {
    let (_manager, mut core) = demo_core();
    let mut lp = CoreLoop::new(Vec::new());
    lp.process_batch(
        &mut core,
        &batch(vec![
            Event::ControllerAxisMotion { which: 3, axis: 1, value: 100 },
            Event::ControllerAxisMotion { which: 3, axis: 1, value: -100 },
        ]),
    );
    assert_eq!(lp.inputs().axis_value(3, 1), Some(-100));
    assert_eq!(core.received.len(), 2);
}

#[test]
fn other_events_are_ignored_and_not_forwarded() {
    let (_manager, mut core) = demo_core();
    let mut lp = CoreLoop::new(Vec::new());
    lp.process_batch(&mut core, &batch(vec![Event::Other, Event::Other]));
    assert!(lp.inputs().is_empty());
    assert_eq!(core.received.len(), 0);
}

fn entry(id: u32, keys: Vec<u32>) -> ShortcutEntry {
    ShortcutEntry { command: CommandId(id), shortcut: Shortcut::from_keys(keys) }
}

#[test]
fn shortcut_fires_and_clears_inputs() {
    let (_manager, mut core) = demo_core();
    let mut lp = CoreLoop::new(vec![entry(7, vec![30, 56])]);
    lp.process_batch(
        &mut core,
        &batch(vec![
            Event::KeyDown { scancode: 30, repeat: false },
            Event::KeyDown { scancode: 56, repeat: false },
        ]),
    );
    let fired = lp.fire_shortcut();
    assert_eq!(fired, Some(CommandId(7)));
    // The input state is cleared immediately, whatever the command result.
    assert!(lp.inputs().is_empty());
    assert_eq!(directive_for(&CommandResult::Success), LoopDirective::Continue {
        rebuild_shortcuts: true
    });

    // The same holds when the command fails.
    lp.process_batch(
        &mut core,
        &batch(vec![
            Event::KeyDown { scancode: 30, repeat: false },
            Event::KeyDown { scancode: 56, repeat: false },
        ]),
    );
    assert_eq!(lp.fire_shortcut(), Some(CommandId(7)));
    assert!(lp.inputs().is_empty());
    assert_eq!(
        directive_for(&CommandResult::Error("command failed".to_string())),
        LoopDirective::Continue { rebuild_shortcuts: true }
    );
}

#[test]
fn first_registered_shortcut_wins() {
    let (_manager, mut core) = demo_core();
    // Both trigger conditions are satisfied by the same input state.
    let mut lp = CoreLoop::new(vec![entry(1, vec![30]), entry(2, vec![30])]);
    lp.process_batch(
        &mut core,
        &batch(vec![Event::KeyDown { scancode: 30, repeat: false }]),
    );
    assert_eq!(lp.fire_shortcut(), Some(CommandId(1)));
    // One command per frame: the cleared state satisfies no keyed shortcut.
    assert_eq!(lp.fire_shortcut(), None);
}

#[test]
fn quit_core_exits_before_anything_else() {
    let (_manager, mut core) = demo_core();
    let mut lp = CoreLoop::new(vec![entry(1, vec![30]), entry(2, Vec::new())]);
    lp.process_batch(
        &mut core,
        &batch(vec![Event::KeyDown { scancode: 30, repeat: false }]),
    );
    // Only the first-registered match is considered this frame, and a quit
    // result halts the loop before any later-registered entry is evaluated.
    assert_eq!(lp.fire_shortcut(), Some(CommandId(1)));
    assert_eq!(directive_for(&CommandResult::QuitCore), LoopDirective::Exit);
}

#[test]
fn no_match_fires_nothing() {
    let (_manager, mut core) = demo_core();
    let mut lp = CoreLoop::new(vec![entry(1, vec![30])]);
    lp.process_batch(
        &mut core,
        &batch(vec![Event::KeyDown { scancode: 31, repeat: false }]),
    );
    assert_eq!(lp.fire_shortcut(), None);
    assert!(!lp.inputs().is_empty());
}

#[test]
fn shortcut_with_button_condition() {
    let (_manager, mut core) = demo_core();
    let shortcut = Shortcut {
        keys: vec![30],
        buttons: vec![ButtonRef { which: 1, button: 9 }],
    };
    let mut lp = CoreLoop::new(vec![ShortcutEntry { command: CommandId(3), shortcut }]);
    lp.process_batch(
        &mut core,
        &batch(vec![Event::KeyDown { scancode: 30, repeat: false }]),
    );
    assert_eq!(lp.fire_shortcut(), None);
    lp.process_batch(
        &mut core,
        &batch(vec![Event::ControllerButtonDown { which: 1, button: 9 }]),
    );
    assert_eq!(lp.fire_shortcut(), Some(CommandId(3)));
}

#[test]
fn reload_replaces_the_table() {
    let (_manager, mut core) = demo_core();
    let mut lp = CoreLoop::new(vec![entry(1, vec![30])]);
    lp.reload_shortcuts(vec![entry(9, vec![30])]);
    lp.process_batch(
        &mut core,
        &batch(vec![Event::KeyDown { scancode: 30, repeat: false }]),
    );
    assert_eq!(lp.fire_shortcut(), Some(CommandId(9)));
}

#[test]
fn housekeeping_is_amortized() {
    let lp_table: Vec<ShortcutEntry> = Vec::new();
    let mut lp = CoreLoop::new(lp_table);
    assert!(lp.housekeeping_due());
    lp.advance_frame();
    assert!(!lp.housekeeping_due());
    for _ in 0..99 {
        lp.advance_frame();
    }
    assert!(lp.housekeeping_due());
}

#[test]
fn run_frame_counts_routes_and_fires() {
    let (_manager, mut core) = demo_core();
    let mut lp = CoreLoop::new(vec![entry(4, vec![41])]);
    let fired = lp.run_frame(
        &mut core,
        &batch(vec![Event::KeyDown { scancode: 41, repeat: false }]),
    );
    assert_eq!(fired, Some(CommandId(4)));
    assert!(lp.inputs().is_empty());
    assert!(!lp.housekeeping_due());
    assert_eq!(core.received.len(), 1);
    let fired = lp.run_frame(&mut core, &batch(vec![]));
    assert_eq!(fired, None);
}
