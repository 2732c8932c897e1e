use tray_menu::{Assembly, Icon, IconTarget, Menu, MenuItem, NativeMenu, NativeOp, Release, Step, TrayError};

fn icon() -> Icon {
    Icon { rgba: vec![255, 0, 0, 255], width: 1, height: 1 }
}

fn button(name: &str, signal: u32) -> MenuItem<u32> {
    MenuItem::Button { name: name.to_string(), signal, disabled: false, checked: None, icon: None }
}

/// Drives a build to its end. Created menus get handles 100, 101, ...; attached
/// bitmaps get 500, 501, ...; `fails` picks the operations that fail, with status 7.
fn run(
    menu: Menu<u32>,
    fails: &dyn Fn(&NativeOp) -> bool,
) -> (Vec<Step>, Result<NativeMenu<u32>, (TrayError, Vec<Release>)>) {
    let mut build = Assembly::new(menu);
    let mut steps = Vec::new();
    let mut next_menu = 100usize;
    let mut next_bitmap = 500usize;
    while let Some(op) = build.pending() {
        let outcome = if fails(op) {
            Err(7)
        } else {
            match op {
                NativeOp::CreateMenu => {
                    next_menu += 1;
                    Ok(next_menu - 1)
                }
                NativeOp::SetIcon { .. } => {
                    next_bitmap += 1;
                    Ok(next_bitmap - 1)
                }
                _ => Ok(0),
            }
        };
        steps.push(build.record(outcome));
    }
    (steps, build.finish())
}

fn scenario() -> Menu<u32> {
    Menu {
        items: vec![
            button("A", 1),
            MenuItem::Separator,
            MenuItem::Menu { name: "Sub".to_string(), children: vec![button("B", 2)], icon: None },
        ],
    }
}

#[test]
fn scenario_signals_and_lookup() {
    let (_, r) = run(scenario(), &|_| false);
    let m = r.unwrap();
    assert_eq!(m.signal_count(), 2);
    assert_eq!(m.map(0), Some(&1));
    assert_eq!(m.map(1), Some(&2));
    assert_eq!(m.map(2), None);
    assert_eq!(m.handle(), 100);
}

#[test]
fn scenario_operations_in_order() {
    let (ops, signals) = tray_menu::plan(scenario());
    assert_eq!(signals, vec![1, 2]);
    assert_eq!(
        ops,
        vec![
            NativeOp::CreateMenu,
            NativeOp::AppendButton { menu: 0, id: 0, name: "A".to_string(), checked: false, disabled: false },
            NativeOp::AppendSeparator { menu: 0 },
            NativeOp::CreateMenu,
            NativeOp::AppendButton { menu: 1, id: 1, name: "B".to_string(), checked: false, disabled: false },
            NativeOp::AppendSubmenu { menu: 0, submenu: 1, name: "Sub".to_string() },
        ]
    );
}

#[test]
fn separator_only_submenu_has_no_signals() {
    let menu = Menu {
        items: vec![MenuItem::Menu { name: "Empty".to_string(), children: vec![MenuItem::Separator], icon: None }],
    };
    let (steps, r) = run(menu, &|_| false);
    assert!(steps.iter().all(|s| *s == Step::Continue));
    let m = r.unwrap();
    assert_eq!(m.signal_count(), 0);
    assert_eq!(m.map(0), None);
}

#[test]
fn button_icon_failure_aborts() {
    let menu = Menu {
        items: vec![
            button("A", 1),
            MenuItem::Button { name: "B".to_string(), signal: 2, disabled: false, checked: None, icon: Some(icon()) },
            button("C", 3),
        ],
    };
    let (steps, r) = run(menu, &|op| matches!(op, NativeOp::SetIcon { .. }));
    assert_eq!(steps.last(), Some(&Step::Abort(TrayError::Native(7))));
    match r {
        Err((e, rel)) => {
            assert_eq!(e, TrayError::Native(7));
            assert_eq!(e.code(), 7);
            assert_eq!(rel, vec![Release::DestroyMenu(100)]);
        }
        Ok(_) => panic!("a failed button icon must fail the build"),
    }
}

#[test]
fn submenu_icon_failure_is_tolerated() {
    let menu = Menu {
        items: vec![
            button("A", 1),
            MenuItem::Menu { name: "Sub".to_string(), children: vec![button("B", 2), button("C", 3)], icon: Some(icon()) },
            button("D", 4),
        ],
    };
    let (steps, r) = run(menu, &|op| matches!(op, NativeOp::SetIcon { .. }));
    assert!(steps.contains(&Step::Skipped(TrayError::Native(7))));
    let m = r.unwrap();
    assert_eq!(m.signal_count(), 4);
    for (id, want) in [1u32, 2, 3, 4].iter().enumerate() {
        assert_eq!(m.map(id as u16), Some(want));
    }
    assert_eq!(m.releases(), vec![Release::DestroyMenu(100)]);
}

#[test]
fn icons_are_addressed_by_id_and_by_position() {
    let menu = Menu {
        items: vec![
            MenuItem::Separator,
            MenuItem::Button { name: "A".to_string(), signal: 1, disabled: true, checked: Some(true), icon: Some(icon()) },
            MenuItem::Menu { name: "Sub".to_string(), children: vec![], icon: Some(icon()) },
        ],
    };
    let (ops, _) = tray_menu::plan(menu);
    assert_eq!(ops[1], NativeOp::AppendSeparator { menu: 0 });
    assert_eq!(ops[2], NativeOp::AppendButton { menu: 0, id: 0, name: "A".to_string(), checked: true, disabled: true });
    assert_eq!(ops[3], NativeOp::SetIcon { menu: 0, target: IconTarget::ById(0), icon: icon() });
    assert_eq!(ops[6], NativeOp::SetIcon { menu: 0, target: IconTarget::ByPosition(2), icon: icon() });
}

#[test]
fn unchecked_button_has_no_check_mark() {
    let menu = Menu {
        items: vec![MenuItem::Button { name: "A".to_string(), signal: 1, disabled: false, checked: Some(false), icon: None }],
    };
    let (ops, _) = tray_menu::plan(menu);
    assert_eq!(ops[1], NativeOp::AppendButton { menu: 0, id: 0, name: "A".to_string(), checked: false, disabled: false });
}

#[test]
fn teardown_releases_every_bitmap_then_the_root() {
    let menu = Menu {
        items: vec![
            MenuItem::Button { name: "A".to_string(), signal: 1, disabled: false, checked: None, icon: Some(icon()) },
            MenuItem::Menu { name: "Sub".to_string(), children: vec![button("B", 2)], icon: Some(icon()) },
        ],
    };
    let (_, r) = run(menu, &|_| false);
    let m = r.unwrap();
    assert_eq!(
        m.releases(),
        vec![Release::DeleteBitmap(500), Release::DeleteBitmap(501), Release::DestroyMenu(100)]
    );
}

#[test]
fn failure_inside_submenu_releases_detached_menus() {
    let menu = Menu {
        items: vec![
            MenuItem::Button { name: "A".to_string(), signal: 1, disabled: false, checked: None, icon: Some(icon()) },
            MenuItem::Menu {
                name: "Sub".to_string(),
                children: vec![MenuItem::Menu { name: "Inner".to_string(), children: vec![button("B", 2)], icon: None }, button("C", 3)],
                icon: None,
            },
        ],
    };
    let (_, r) = run(menu, &|op| matches!(op, NativeOp::AppendButton { id: 2, .. }));
    match r {
        Err((e, rel)) => {
            assert_eq!(e, TrayError::Native(7));
            assert_eq!(rel, vec![Release::DeleteBitmap(500), Release::DestroyMenu(100), Release::DestroyMenu(101)]);
        }
        Ok(_) => panic!("a failed append must fail the build"),
    }
}

#[test]
fn root_creation_failure_releases_nothing() {
    let (steps, r) = run(scenario(), &|op| matches!(op, NativeOp::CreateMenu));
    assert_eq!(steps, vec![Step::Abort(TrayError::Native(7))]);
    match r {
        Err((_, rel)) => assert!(rel.is_empty()),
        Ok(_) => panic!("no root menu, no build"),
    }
}

#[test]
fn signal_count_matches_button_leaves() {
    let menu = Menu {
        items: vec![
            button("A", 10),
            MenuItem::Menu {
                name: "S".to_string(),
                children: vec![MenuItem::Separator, button("B", 20), MenuItem::Menu { name: "T".to_string(), children: vec![button("C", 30)], icon: None }],
                icon: None,
            },
            MenuItem::Separator,
            button("D", 40),
        ],
    };
    let (_, signals) = tray_menu::plan(menu);
    assert_eq!(signals, vec![10, 20, 30, 40]);
}
