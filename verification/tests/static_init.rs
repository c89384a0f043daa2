use static_initializer::descriptor::{
    BindingDescriptor, CapabilityError, DEFAULT_PRIORITY, TypeCapabilities, Visibility,
    check_capabilities,
};
use static_initializer::generate::{BuildError, generate, module_ident};
use static_initializer::lifecycle::{InitOutcome, run_construct_phase, run_destruct_phase};
use static_initializer::platform::{Phase, PlatformFamily, family_of_target_os};
use static_initializer::schedule::{construction_schedule, destruction_schedule};
use static_initializer::section::{PlatformError, encode_priority, section_name};
use static_initializer::storage::{AccessFacade, CellState, StorageCell};

fn shareable_fixed() -> TypeCapabilities {
    TypeCapabilities { cross_thread_sharing: true, fixed_layout: true }
}

fn descriptor(name: &str, priority: u16) -> BindingDescriptor {
    BindingDescriptor {
        name: String::from(name),
        capabilities: shareable_fixed(),
        priority,
        visibility: Visibility::Inherited,
    }
}

#[test]
fn it_works() {
    // One binding of a dynamically sized collection, default priority,
    // built for a Unix-like target, read after the construct phase.
    let desc = descriptor("TEST", DEFAULT_PRIORITY);
    let module = generate(&desc, PlatformFamily::UnixLike).unwrap();
    assert_eq!(module.constructor.section, ".init_array.65535");
    assert_eq!(module.destructor.section, ".fini_array.65535");

    let priorities: Vec<u16> = vec![desc.priority];
    let init: Vec<u8> = (0..15u8).collect();
    let outcomes = vec![InitOutcome::Value { value: init }];
    let image = run_construct_phase(&priorities, outcomes).unwrap();
    let facade = AccessFacade { index: 0 };
    println!("Test vec: {:?}", facade.read(&image.cells).as_slice());
    let expected: Vec<u8> = (0..15u8).collect();
    assert_eq!(facade.read(&image.cells), &expected);
}

#[test]
fn encode_priority_exact() {
    assert_eq!(encode_priority(0), "00000");
    assert_eq!(encode_priority(7), "00007");
    assert_eq!(encode_priority(10), "00010");
    assert_eq!(encode_priority(302), "00302");
    assert_eq!(encode_priority(65535), "65535");
}

#[test]
fn section_names_windows() {
    let c = section_name(PlatformFamily::WindowsLike, Phase::Construct, 0).unwrap();
    let d = section_name(PlatformFamily::WindowsLike, Phase::Destruct, 0).unwrap();
    assert_eq!(c, ".CRT$XCU00000");
    assert_eq!(d, ".CRT$XPTZ00000");
    let c_max = section_name(PlatformFamily::WindowsLike, Phase::Construct, 65535).unwrap();
    assert_eq!(c_max, ".CRT$XCU65535");
}

#[test]
fn section_names_unix() {
    let c = section_name(PlatformFamily::UnixLike, Phase::Construct, 10).unwrap();
    let d = section_name(PlatformFamily::UnixLike, Phase::Destruct, 10).unwrap();
    assert_eq!(c, ".init_array.00010");
    assert_eq!(d, ".fini_array.00010");
}

#[test]
fn section_names_apple_ignore_priority() {
    let c1 = section_name(PlatformFamily::AppleLike, Phase::Construct, 0).unwrap();
    let c2 = section_name(PlatformFamily::AppleLike, Phase::Construct, 65535).unwrap();
    let d1 = section_name(PlatformFamily::AppleLike, Phase::Destruct, 0).unwrap();
    let d2 = section_name(PlatformFamily::AppleLike, Phase::Destruct, 123).unwrap();
    assert_eq!(c1, "__DATA,__mod_init_func");
    assert_eq!(c1, c2);
    assert_eq!(d1, "__DATA,__mod_term_func");
    assert_eq!(d1, d2);
}

#[test]
fn section_name_deterministic_and_distinct() {
    // Same inputs give the same name; distinct phases and priorities
    // give distinct names on the families with priority control.
    let a = section_name(PlatformFamily::UnixLike, Phase::Construct, 42).unwrap();
    let b = section_name(PlatformFamily::UnixLike, Phase::Construct, 42).unwrap();
    assert_eq!(a, b);
    let c = section_name(PlatformFamily::UnixLike, Phase::Destruct, 42).unwrap();
    let d = section_name(PlatformFamily::UnixLike, Phase::Construct, 43).unwrap();
    assert_ne!(a, c);
    assert_ne!(a, d);
    let w1 = section_name(PlatformFamily::WindowsLike, Phase::Construct, 42).unwrap();
    let w2 = section_name(PlatformFamily::WindowsLike, Phase::Destruct, 42).unwrap();
    assert_ne!(w1, w2);
}

#[test]
fn section_name_unsupported_rejected() {
    let r = section_name(PlatformFamily::Unsupported, Phase::Construct, 0);
    assert_eq!(r, Err(PlatformError::UnsupportedFamily));
    let r = section_name(PlatformFamily::Unsupported, Phase::Destruct, 65535);
    assert_eq!(r, Err(PlatformError::UnsupportedFamily));
}

#[test]
fn priority_order_is_lexical() {
    // Zero padding makes string comparison agree with numeric order.
    let pairs = [(0u16, 1u16), (9, 10), (99, 100), (10, 20), (999, 65535)];
    for (p1, p2) in pairs {
        let s1 = section_name(PlatformFamily::UnixLike, Phase::Construct, p1).unwrap();
        let s2 = section_name(PlatformFamily::UnixLike, Phase::Construct, p2).unwrap();
        assert!(s1 < s2);
        let w1 = section_name(PlatformFamily::WindowsLike, Phase::Destruct, p1).unwrap();
        let w2 = section_name(PlatformFamily::WindowsLike, Phase::Destruct, p2).unwrap();
        assert!(w1 < w2);
    }
}

#[test]
fn capability_gate() {
    assert!(check_capabilities(&shareable_fixed()).is_ok());
    let not_shareable = TypeCapabilities { cross_thread_sharing: false, fixed_layout: true };
    assert_eq!(
        check_capabilities(&not_shareable),
        Err(CapabilityError::NotCrossThreadSharable)
    );
    let not_fixed = TypeCapabilities { cross_thread_sharing: true, fixed_layout: false };
    assert_eq!(check_capabilities(&not_fixed), Err(CapabilityError::NoFixedLayout));
}

#[test]
fn generation_fails_without_sharing_capability() {
    let mut desc = descriptor("CELL", 3);
    desc.capabilities.cross_thread_sharing = false;
    let r = generate(&desc, PlatformFamily::UnixLike);
    assert!(matches!(
        r,
        Err(BuildError::Capability(CapabilityError::NotCrossThreadSharable))
    ));
}

#[test]
fn generation_fails_without_fixed_layout() {
    let mut desc = descriptor("CELL", 3);
    desc.capabilities.fixed_layout = false;
    let r = generate(&desc, PlatformFamily::UnixLike);
    assert!(matches!(r, Err(BuildError::Capability(CapabilityError::NoFixedLayout))));
}

#[test]
fn generation_fails_on_unsupported_platform() {
    let desc = descriptor("CELL", 3);
    let r = generate(&desc, PlatformFamily::Unsupported);
    assert!(matches!(r, Err(BuildError::Platform(PlatformError::UnsupportedFamily))));
}

#[test]
fn generated_module_for_unix_binding() {
    let desc = descriptor("Config", 7);
    let module = generate(&desc, PlatformFamily::UnixLike).unwrap();
    assert_eq!(module.module_ident, "__static_init_module_nconfig");
    assert_eq!(module.constructor.section, ".init_array.00007");
    assert_eq!(module.constructor.priority, 7);
    assert_eq!(module.constructor.phase, Phase::Construct);
    assert_eq!(module.destructor.section, ".fini_array.00007");
    assert_eq!(module.destructor.priority, 7);
    assert_eq!(module.destructor.phase, Phase::Destruct);
}

#[test]
fn module_ident_lowercases_name() {
    assert_eq!(module_ident("MyGlobal"), "__static_init_module_nmyglobal");
    assert_eq!(module_ident("TEST"), "__static_init_module_ntest");
    assert_eq!(module_ident(""), "__static_init_module_n");
}

#[test]
fn two_priorities_run_in_order() {
    // Two bindings, priorities 10 and 20, on a Unix-like target: the
    // sections are ...00010 and ...00020, constructors run 10 before
    // 20, destructors 20 before 10.
    let d10 = descriptor("FIRST", 10);
    let d20 = descriptor("SECOND", 20);
    let m10 = generate(&d10, PlatformFamily::UnixLike).unwrap();
    let m20 = generate(&d20, PlatformFamily::UnixLike).unwrap();
    assert_eq!(m10.constructor.section, ".init_array.00010");
    assert_eq!(m20.constructor.section, ".init_array.00020");
    assert!(m10.constructor.section < m20.constructor.section);

    let priorities: Vec<u16> = vec![10, 20];
    let outcomes = vec![
        InitOutcome::Value { value: 100u64 },
        InitOutcome::Value { value: 200u64 },
    ];
    let mut image = run_construct_phase(&priorities, outcomes).unwrap();
    assert_eq!(image.trace.len(), 2);
    assert_eq!(image.trace[0].priority, 10);
    assert_eq!(image.trace[0].index, 0);
    assert_eq!(image.trace[1].priority, 20);
    assert_eq!(image.trace[1].index, 1);

    let dtrace = run_destruct_phase(&priorities, &mut image.cells);
    assert_eq!(dtrace[0].priority, 20);
    assert_eq!(dtrace[0].index, 1);
    assert_eq!(dtrace[1].priority, 10);
    assert_eq!(dtrace[1].index, 0);
}

#[test]
fn shuffled_priorities_visit_ascending() {
    let priorities: Vec<u16> = vec![30, 10, 20];
    let sched = construction_schedule(&priorities);
    let visited: Vec<usize> = sched.iter().map(|e| e.index).collect();
    assert_eq!(visited, vec![1, 2, 0]);
    let dsched = destruction_schedule(&priorities);
    let dvisited: Vec<usize> = dsched.iter().map(|e| e.index).collect();
    assert_eq!(dvisited, vec![0, 2, 1]);
}

#[test]
fn equal_priorities_visit_each_once() {
    let priorities: Vec<u16> = vec![5, 5, 5, 5];
    let sched = construction_schedule(&priorities);
    let mut visited: Vec<usize> = sched.iter().map(|e| e.index).collect();
    visited.sort();
    assert_eq!(visited, vec![0, 1, 2, 3]);
}

#[test]
fn failing_initializer_is_a_startup_fault() {
    // A failing initializer must surface as a startup fault, never as
    // a silently uninitialized cell presented as a live image.
    let priorities: Vec<u16> = vec![1, 2, 3];
    let outcomes = vec![
        InitOutcome::Value { value: 10u32 },
        InitOutcome::Fault,
        InitOutcome::Value { value: 30u32 },
    ];
    let r = run_construct_phase(&priorities, outcomes);
    match r {
        Ok(_) => panic!("a failing initializer must not produce an image"),
        Err(fault) => assert_eq!(fault.index, 1),
    }
}

#[test]
fn cells_read_only_between_phases() {
    // Construct phase completed, destruct phase not yet reached: every
    // cell is initialized and readable; after the destruct phase every
    // cell is destroyed.
    let priorities: Vec<u16> = vec![4, 2];
    let outcomes = vec![
        InitOutcome::Value { value: String::from("alpha") },
        InitOutcome::Value { value: String::from("beta") },
    ];
    let mut image = run_construct_phase(&priorities, outcomes).unwrap();
    assert_eq!(image.cells[0].read().as_str(), "alpha");
    assert_eq!(image.cells[1].read().as_str(), "beta");
    run_destruct_phase(&priorities, &mut image.cells);
    assert_eq!(image.cells.len(), 2);
}

#[test]
fn storage_cell_lifecycle() {
    let mut cell: StorageCell<u8> = StorageCell::new();
    cell.construct(42);
    assert_eq!(*cell.read(), 42);
    cell.destruct();
}

#[test]
fn cell_state_values_distinct() {
    assert_ne!(CellState::Uninitialized, CellState::Initialized);
    assert_ne!(CellState::Initialized, CellState::Destroyed);
    assert_ne!(CellState::Uninitialized, CellState::Destroyed);
}

#[test]
fn target_os_families() {
    assert_eq!(family_of_target_os("windows"), PlatformFamily::WindowsLike);
    assert_eq!(family_of_target_os("macos"), PlatformFamily::AppleLike);
    assert_eq!(family_of_target_os("ios"), PlatformFamily::AppleLike);
    assert_eq!(family_of_target_os("linux"), PlatformFamily::UnixLike);
    assert_eq!(family_of_target_os("android"), PlatformFamily::UnixLike);
    assert_eq!(family_of_target_os("wasm"), PlatformFamily::Unsupported);
    assert_eq!(family_of_target_os("freebsd"), PlatformFamily::Unsupported);
}

#[test]
fn default_priority_is_maximum() {
    assert_eq!(DEFAULT_PRIORITY, 65535);
    assert_eq!(DEFAULT_PRIORITY, u16::MAX);
}
