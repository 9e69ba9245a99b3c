use brainwash_gui::body::{EnvPoint, Module, ModuleBody, PatchSurface};
use brainwash_gui::grid::{GridPos, ModuleId, Orientation};
use brainwash_gui::kind::ModuleKind;
use brainwash_gui::state::{EnvPointerPhase, GridPointerPhase, GuiAction, GuiState, Mode};

fn module(id: u32, x: u16, y: u16, kind: ModuleKind) -> Module {
    Module {
        id: ModuleId::new(id),
        position: GridPos::new(x, y),
        orientation: Orientation::Right,
        body: kind.default_body(),
        disabled: false,
    }
}

fn loaded(modules: Vec<Module>) -> GuiState {
    let mut s = GuiState::new(32, 24);
    let root = PatchSurface {
        cursor: GridPos::new(0, 0),
        modules,
    };
    assert!(s.set_project(root, None, 120, 2, "p.bw".to_string()).is_ok());
    s
}

#[test]
fn dragging_a_module_carries_it_with_the_pointer() {
    let mut s = loaded(vec![module(1, 2, 2, ModuleKind::Osc)]);
    s.drag_grid_cell(GridPointerPhase::Start, GridPos::new(2, 2));
    s.drag_grid_cell(GridPointerPhase::Drag, GridPos::new(5, 4));
    assert_eq!(s.modules()[0].position(), GridPos::new(5, 4));
    assert_eq!(s.cursor(), GridPos::new(5, 4));
    s.drag_grid_cell(GridPointerPhase::End, GridPos::new(6, 4));
    assert_eq!(s.modules()[0].position(), GridPos::new(6, 4));
    assert_eq!(s.mode(), Mode::Normal);
    assert!(s.dirty());
    s.apply(GuiAction::Undo, None);
    assert_eq!(s.modules()[0].position(), GridPos::new(5, 4));
}

#[test]
fn dragging_empty_cells_draws_a_selection() {
    let mut s = loaded(vec![module(1, 2, 2, ModuleKind::Osc)]);
    s.drag_grid_cell(GridPointerPhase::Start, GridPos::new(1, 1));
    s.drag_grid_cell(GridPointerPhase::Drag, GridPos::new(4, 4));
    assert_eq!(
        s.mode(),
        Mode::Select {
            anchor: GridPos::new(1, 1)
        }
    );
    s.drag_grid_cell(GridPointerPhase::End, GridPos::new(4, 4));
    assert_eq!(s.selected_modules(), vec![ModuleId::new(1)]);
}

#[test]
fn a_click_without_a_drag_ends_the_selection() {
    let mut s = loaded(vec![]);
    s.drag_grid_cell(GridPointerPhase::Start, GridPos::new(3, 3));
    s.drag_grid_cell(GridPointerPhase::End, GridPos::new(3, 3));
    assert_eq!(s.mode(), Mode::Normal);
}

#[test]
fn a_carried_selection_moves_only_when_it_fits() {
    let mut s = loaded(vec![
        module(1, 2, 2, ModuleKind::Freq),
        module(2, 3, 2, ModuleKind::Freq),
        module(3, 9, 2, ModuleKind::Freq),
    ]);
    s.mode = Mode::Select {
        anchor: GridPos::new(2, 2),
    };
    s.focus_cell(GridPos::new(3, 2));
    s.drag_grid_cell(GridPointerPhase::Start, GridPos::new(2, 2));
    assert_eq!(
        s.mode(),
        Mode::SelectMove {
            anchor: GridPos::new(2, 2),
            extent: GridPos::new(3, 2),
            origin: GridPos::new(2, 2)
        }
    );
    s.drag_grid_cell(GridPointerPhase::Drag, GridPos::new(2, 5));
    assert_eq!(s.modules()[0].position(), GridPos::new(2, 5));
    assert_eq!(s.modules()[1].position(), GridPos::new(3, 5));
    s.drag_grid_cell(GridPointerPhase::Drag, GridPos::new(8, 5));
    assert_eq!(s.modules()[0].position(), GridPos::new(8, 5));
    assert_eq!(s.modules()[1].position(), GridPos::new(9, 5));
    s.drag_grid_cell(GridPointerPhase::Drag, GridPos::new(8, 2));
    assert_eq!(s.modules()[1].position(), GridPos::new(9, 5));
    s.drag_grid_cell(GridPointerPhase::End, GridPos::new(8, 2));
    assert_eq!(
        s.mode(),
        Mode::Select {
            anchor: GridPos::new(8, 5)
        }
    );
    assert_eq!(s.cursor(), GridPos::new(9, 5));
}

#[test]
fn clicking_outside_a_selection_ends_it() {
    let mut s = loaded(vec![]);
    s.mode = Mode::Select {
        anchor: GridPos::new(4, 4),
    };
    s.focus_cell(GridPos::new(2, 2));
    s.click_grid_cell(GridPos::new(3, 3));
    assert_eq!(
        s.mode(),
        Mode::SelectMove {
            anchor: GridPos::new(2, 2),
            extent: GridPos::new(4, 4),
            origin: GridPos::new(3, 3)
        }
    );
    s.click_grid_cell(GridPos::new(10, 10));
    assert_eq!(s.mode(), Mode::Normal);
    assert_eq!(s.cursor(), GridPos::new(10, 10));
    s.click_grid_cell(GridPos::new(99, 99));
    assert_eq!(s.cursor(), GridPos::new(31, 23));
}

#[test]
fn dragging_an_envelope_point_keeps_the_points_in_order() {
    let mut env = module(5, 0, 0, ModuleKind::Envelope);
    let phase = match ModuleKind::Envelope.default_body() {
        ModuleBody::Envelope { phase, .. } => phase,
        _ => unreachable!(),
    };
    env.body = ModuleBody::Envelope {
        phase,
        points: vec![
            EnvPoint { time: 0, value: 0, curve: false },
            EnvPoint { time: 50, value: 100, curve: true },
            EnvPoint { time: 100, value: 0, curve: false },
        ],
    };
    let mut s = loaded(vec![env]);
    s.drag_env_point(EnvPointerPhase::Start, ModuleId::new(5), 48, 90);
    assert_eq!(
        s.mode(),
        Mode::EnvEdit {
            module: ModuleId::new(5),
            point: 1,
            editing: true
        }
    );
    s.drag_env_point(EnvPointerPhase::Drag, ModuleId::new(5), 120, -300);
    assert_eq!(
        s.modules()[0].env_points(),
        vec![
            EnvPoint { time: 0, value: 0, curve: false },
            EnvPoint { time: 100, value: -100, curve: true },
            EnvPoint { time: 100, value: 0, curve: false },
        ]
    );
    assert_eq!(
        s.mode(),
        Mode::EnvEdit {
            module: ModuleId::new(5),
            point: 1,
            editing: true
        }
    );
    s.drag_env_point(EnvPointerPhase::End, ModuleId::new(5), 100, -100);
    assert_eq!(
        s.mode(),
        Mode::EnvEdit {
            module: ModuleId::new(5),
            point: 1,
            editing: false
        }
    );
    s.drag_env_point(EnvPointerPhase::Start, ModuleId::new(6), 0, 0);
    assert_eq!(s.mode(), Mode::Normal);
}

#[test]
fn relinking_points_a_sample_at_its_new_file() {
    let mut sample = module(7, 0, 0, ModuleKind::Sample);
    sample.body = ModuleBody::Sample {
        file_name: "old.wav".to_string(),
        file_missing: true,
        position: match ModuleKind::Sample.default_body() {
            ModuleBody::Sample { position, .. } => position,
            _ => unreachable!(),
        },
    };
    let mut s = loaded(vec![sample, module(8, 0, 5, ModuleKind::Osc)]);
    assert!(!s.relink_sample(ModuleId::new(8), "x.wav".to_string()));
    assert!(!s.relink_sample(ModuleId::new(9), "x.wav".to_string()));
    assert!(s.relink_sample(ModuleId::new(7), "/samples/new.wav".to_string()));
    match &s.modules()[0].body {
        ModuleBody::Sample {
            file_name,
            file_missing,
            ..
        } => {
            assert_eq!(file_name, "/samples/new.wav");
            assert!(!file_missing);
        }
        _ => unreachable!(),
    }
    assert_eq!(s.document_status(), "Relinked sample /samples/new.wav");
    assert!(s.dirty());
}

fn sample(id: u32, x: u16, y: u16, file: &str) -> Module {
    let mut m = module(id, x, y, ModuleKind::Sample);
    if let ModuleBody::Sample { file_name, .. } = &mut m.body {
        *file_name = file.to_string();
    }
    m
}

fn missing_flag(m: &Module) -> bool {
    match &m.body {
        ModuleBody::Sample { file_missing, .. } => *file_missing,
        _ => unreachable!(),
    }
}

#[test]
fn opening_a_document_names_its_missing_samples_once() {
    let mut s = loaded(vec![
        sample(1, 0, 0, "kick.wav"),
        sample(2, 0, 3, "snare.wav"),
        sample(3, 0, 6, "kick.wav"),
        sample(4, 0, 9, "none"),
    ]);
    assert_eq!(
        s.sample_files(),
        vec!["kick.wav", "snare.wav", "kick.wav", "none"]
    );
    s.finish_load(Ok(vec!["kick.wav".to_string(), "none".to_string()]));
    assert!(missing_flag(&s.modules()[0]));
    assert!(!missing_flag(&s.modules()[1]));
    assert!(missing_flag(&s.modules()[2]));
    assert!(!missing_flag(&s.modules()[3]));
    assert_eq!(
        s.document_status(),
        "Opened p.bw; missing sample files: kick.wav"
    );
    s.finish_load(Ok(vec!["snare.wav".to_string(), "kick.wav".to_string()]));
    assert_eq!(
        s.document_status(),
        "Opened p.bw; missing sample files: kick.wav, snare.wav"
    );
    s.finish_load(Ok(vec![]));
    assert_eq!(s.document_status(), "Opened p.bw");
    assert!(!missing_flag(&s.modules()[0]));
    s.finish_load(Err("not a patch".to_string()));
    assert_eq!(s.document_status(), "Open failed: not a patch");
}

#[test]
fn a_moved_module_can_be_carried_into_a_composition() {
    let mut s = loaded(vec![
        module(1, 0, 0, ModuleKind::Composition),
        module(2, 0, 6, ModuleKind::Osc),
    ]);
    s.focus_cell(GridPos::new(0, 6));
    s.apply(GuiAction::Move, None);
    assert!(matches!(s.mode(), Mode::Move { .. }));
    s.focus_cell(GridPos::new(0, 0));
    s.apply(GuiAction::EditComposition, None);
    assert_eq!(s.composition_depth(), 1);
    assert!(s.modules().is_empty());
    s.apply(GuiAction::Right, None);
    s.apply(GuiAction::Confirm, None);
    assert_eq!(s.mode(), Mode::Normal);
    assert_eq!(s.modules().len(), 1);
    assert_eq!(s.modules()[0].id(), ModuleId::new(2));
    assert_eq!(s.modules()[0].position(), GridPos::new(1, 0));
    s.apply(GuiAction::ExitComposition, None);
    assert_eq!(s.composition_depth(), 0);
    assert_eq!(s.modules().len(), 1);
    s.apply(GuiAction::Undo, None);
    assert_eq!(s.modules().len(), 2);
    assert_eq!(s.modules()[1].position(), GridPos::new(0, 6));
}

#[test]
fn cancelling_a_carry_puts_the_module_back() {
    let mut s = loaded(vec![
        module(1, 0, 0, ModuleKind::Composition),
        module(2, 0, 6, ModuleKind::Osc),
    ]);
    s.focus_cell(GridPos::new(0, 6));
    s.apply(GuiAction::Move, None);
    s.focus_cell(GridPos::new(0, 0));
    s.apply(GuiAction::EditComposition, None);
    assert_eq!(s.composition_depth(), 1);
    s.apply(GuiAction::Cancel, None);
    assert_eq!(s.mode(), Mode::Normal);
    assert_eq!(s.composition_depth(), 0);
    assert_eq!(s.cursor(), GridPos::new(0, 6));
    assert_eq!(s.modules().len(), 2);
    assert_eq!(s.modules()[1].position(), GridPos::new(0, 6));
    assert!(!s.dirty());
}

#[test]
fn a_carried_selection_can_enter_a_composition() {
    let mut s = loaded(vec![
        module(1, 0, 0, ModuleKind::Composition),
        module(2, 4, 6, ModuleKind::Freq),
        module(3, 5, 6, ModuleKind::Freq),
    ]);
    s.focus_cell(GridPos::new(4, 6));
    s.apply(GuiAction::Select, None);
    s.apply(GuiAction::Right, None);
    s.apply(GuiAction::Move, None);
    s.focus_cell(GridPos::new(0, 0));
    s.apply(GuiAction::EditComposition, None);
    assert_eq!(s.composition_depth(), 1);
    assert!(s.modules().is_empty());
    s.focus_cell(GridPos::new(5, 6));
    s.apply(GuiAction::Confirm, None);
    assert_eq!(s.modules().len(), 2);
    assert_eq!(s.modules()[0].position(), GridPos::new(4, 6));
    assert_eq!(s.modules()[1].position(), GridPos::new(5, 6));
    s.apply(GuiAction::ExitComposition, None);
    assert_eq!(s.modules().len(), 1);
}

#[test]
fn pointer_module_drag_uses_original_module_position() {
    let mut state = GuiState::new(8, 8);
    let root = PatchSurface {
        cursor: GridPos::new(0, 0),
        modules: vec![Module {
            id: ModuleId::new(0),
            position: GridPos::new(1, 1),
            orientation: Orientation::Right,
            body: ModuleKind::Adsr.default_body(),
            disabled: false,
        }],
    };
    assert!(state.set_project(root, None, 120, 2, "p.bw".to_string()).is_ok());

    state.drag_grid_cell(GridPointerPhase::Start, GridPos::new(1, 2));
    state.drag_grid_cell(GridPointerPhase::Drag, GridPos::new(3, 3));
    state.drag_grid_cell(GridPointerPhase::Drag, GridPos::new(4, 4));
    state.drag_grid_cell(GridPointerPhase::End, GridPos::new(4, 4));

    assert_eq!(state.modules()[0].position, GridPos::new(4, 3));
}
