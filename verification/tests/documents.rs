use brainwash_gui::body::{Module, ModuleBody, PatchSurface};
use brainwash_gui::grid::{GridPos, ModuleId, Orientation};
use brainwash_gui::kind::ModuleKind;
use brainwash_gui::labels::validate_composition_labels;
use brainwash_gui::nested::{duplicate_module, duplicate_modules};
use brainwash_gui::state::{GuiAction, GuiState};

fn module(id: u32, x: u16, y: u16, kind: ModuleKind) -> Module {
    Module {
        id: ModuleId::new(id),
        position: GridPos::new(x, y),
        orientation: Orientation::Right,
        body: kind.default_body(),
        disabled: false,
    }
}

fn port(id: u32, y: u16, kind: ModuleKind, name: &str) -> Module {
    let mut m = module(id, 0, y, kind);
    match &mut m.body {
        ModuleBody::CompositionInput { label, .. } | ModuleBody::CompositionOutput { label, .. } => {
            *label = name.to_string();
        }
        _ => unreachable!(),
    }
    m
}

fn composition(id: u32, inside: Vec<Module>) -> Module {
    let mut m = module(id, 0, 0, ModuleKind::Composition);
    if let ModuleBody::Composition { surface, .. } = &mut m.body {
        *surface = PatchSurface {
            cursor: GridPos::new(0, 0),
            modules: inside,
        };
    }
    m
}

fn surface(modules: Vec<Module>) -> PatchSurface {
    PatchSurface {
        cursor: GridPos::new(0, 0),
        modules,
    }
}

#[test]
fn composition_ports_need_labels_of_their_own() {
    let good = surface(vec![composition(
        1,
        vec![
            port(2, 0, ModuleKind::CompositionInput, "In"),
            port(3, 2, ModuleKind::CompositionOutput, "In"),
            port(4, 4, ModuleKind::CompositionInput, "Gain"),
        ],
    )]);
    assert_eq!(validate_composition_labels(&good), Ok(()));

    let repeated = surface(vec![composition(
        1,
        vec![
            port(2, 0, ModuleKind::CompositionInput, "In"),
            port(3, 2, ModuleKind::CompositionInput, "  In "),
        ],
    )]);
    assert_eq!(
        validate_composition_labels(&repeated),
        Err("invalid composition port label \"In\"".to_string())
    );

    let blank = surface(vec![composition(
        1,
        vec![composition(
            5,
            vec![port(6, 0, ModuleKind::CompositionOutput, "   ")],
        )],
    )]);
    assert_eq!(
        validate_composition_labels(&blank),
        Err("invalid composition port label \"\"".to_string())
    );
}

#[test]
fn a_project_file_holds_one_instrument() {
    let mut s = GuiState::new(32, 24);
    assert_eq!(s.check_project(), Ok(()));
    s.apply(GuiAction::Instrument(1), None);
    s.apply(GuiAction::Palette(brainwash_gui::kind::ModuleCategory::Source), None);
    s.apply(GuiAction::Confirm, None);
    assert_eq!(s.modules().len(), 1);
    s.apply(GuiAction::Instrument(0), None);
    assert_eq!(
        s.check_project(),
        Err("project files support one instrument".to_string())
    );
}

#[test]
fn duplicating_takes_one_id_per_module_nested_ones_included() {
    let inner = vec![module(2, 0, 0, ModuleKind::Gate), module(3, 1, 0, ModuleKind::Freq)];
    let c = composition(1, inner);
    let mut next: u32 = 10;
    let d = duplicate_module(&c, GridPos::new(4, 5), &mut next).expect("ids left");
    assert_eq!(d.id, ModuleId::new(10));
    assert_eq!(d.position, GridPos::new(4, 5));
    assert_eq!(next, 13);
}

#[test]
fn duplicating_fails_when_the_ids_run_out() {
    let c = composition(1, vec![module(2, 0, 0, ModuleKind::Gate)]);
    let mut next: u32 = u32::MAX - 1;
    assert!(duplicate_module(&c, GridPos::new(0, 0), &mut next).is_none());
    let mut next: u32 = u32::MAX - 2;
    assert!(duplicate_module(&c, GridPos::new(0, 0), &mut next).is_some());
    assert_eq!(next, u32::MAX);
    let mut next: u32 = u32::MAX;
    assert!(duplicate_modules(&vec![module(5, 0, 0, ModuleKind::Gate)], &mut next).is_none());
    let mut next: u32 = 7;
    let copies = duplicate_modules(&vec![module(5, 0, 0, ModuleKind::Gate), module(6, 1, 1, ModuleKind::Freq)], &mut next)
        .expect("ids left");
    assert_eq!(copies.len(), 2);
    assert_eq!(next, 9);
}
