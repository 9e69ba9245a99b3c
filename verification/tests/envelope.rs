use brainwash_gui::body::{EnvPoint, Module, ModuleBody, PatchSurface};
use brainwash_gui::grid::{GridPos, ModuleId, Orientation};
use brainwash_gui::kind::ModuleKind;
use brainwash_gui::state::{GuiAction, GuiState, Mode};

fn envelope(points: Vec<EnvPoint>) -> GuiState {
    let phase = match ModuleKind::Envelope.default_body() {
        ModuleBody::Envelope { phase, .. } => phase,
        _ => unreachable!(),
    };
    let module = Module {
        id: ModuleId::new(3),
        position: GridPos::new(0, 0),
        orientation: Orientation::Right,
        body: ModuleBody::Envelope { phase, points },
        disabled: false,
    };
    let mut s = GuiState::new(32, 24);
    let root = PatchSurface {
        cursor: GridPos::new(0, 0),
        modules: vec![module],
    };
    assert!(s.set_project(root, None, 120, 2, "e.bw".to_string()).is_ok());
    s.mode = Mode::EnvEdit {
        module: ModuleId::new(3),
        point: 0,
        editing: false,
    };
    s
}

fn p(time: i32, value: i32, curve: bool) -> EnvPoint {
    EnvPoint { time, value, curve }
}

#[test]
fn envelope_points_are_added_halfway_and_deleted_down_to_two() {
    let mut s = envelope(vec![p(0, 0, false), p(40, 80, false), p(100, 0, false)]);
    s.apply(GuiAction::AddPoint, None);
    assert_eq!(
        s.modules()[0].env_points(),
        vec![p(0, 0, false), p(20, 0, false), p(40, 80, false), p(100, 0, false)]
    );
    assert_eq!(
        s.mode(),
        Mode::EnvEdit {
            module: ModuleId::new(3),
            point: 1,
            editing: false
        }
    );
    s.apply(GuiAction::ToggleCurve, None);
    assert!(s.modules()[0].env_points()[1].curve);
    s.apply(GuiAction::DeletePoint, None);
    s.apply(GuiAction::DeletePoint, None);
    assert_eq!(s.modules()[0].env_points(), vec![p(0, 0, false), p(100, 0, false)]);
    s.apply(GuiAction::DeletePoint, None);
    assert_eq!(s.modules()[0].env_points().len(), 2);
}

#[test]
fn a_nudged_point_stays_in_range_and_in_order() {
    let mut s = envelope(vec![p(0, 0, false), p(50, 90, false), p(100, 0, false)]);
    s.apply(GuiAction::Right, None);
    s.apply(GuiAction::Move, None);
    assert_eq!(
        s.mode(),
        Mode::EnvEdit {
            module: ModuleId::new(3),
            point: 1,
            editing: true
        }
    );
    s.apply(GuiAction::Up, None);
    s.apply(GuiAction::Up, None);
    s.apply(GuiAction::Up, None);
    s.apply(GuiAction::Up, None);
    s.apply(GuiAction::Up, None);
    s.apply(GuiAction::Up, None);
    assert_eq!(s.modules()[0].env_points()[1], p(50, 100, false));
    s.apply(GuiAction::RightFast, None);
    s.apply(GuiAction::RightFast, None);
    s.apply(GuiAction::RightFast, None);
    assert_eq!(
        s.modules()[0].env_points(),
        vec![p(0, 0, false), p(100, 100, false), p(100, 0, false)]
    );
    s.apply(GuiAction::DownFast, None);
    assert_eq!(s.modules()[0].env_points()[1], p(100, -100, false));
    s.apply(GuiAction::Confirm, None);
    assert_eq!(
        s.mode(),
        Mode::EnvEdit {
            module: ModuleId::new(3),
            point: 1,
            editing: false
        }
    );
    s.apply(GuiAction::Cancel, None);
    assert_eq!(s.mode(), Mode::Normal);
    s.apply(GuiAction::Undo, None);
    assert_eq!(s.modules()[0].env_points()[1], p(100, 100, false));
}
