use brainwash_gui::body::{Module, ModuleBody, PatchSurface};
use brainwash_gui::grid::{GridPos, GridViewSize, ModuleId, Orientation};
use brainwash_gui::kind::{ModuleCategory, ModuleKind};
use brainwash_gui::state::{GuiAction, GuiState, Mode};

fn state() -> GuiState {
    GuiState::new(32, 24)
}

fn act(state: &mut GuiState, action: GuiAction) {
    state.apply(action, None);
}

fn place(state: &mut GuiState, category: ModuleCategory, steps: usize) {
    act(state, GuiAction::Palette(category));
    for _ in 0..steps {
        act(state, GuiAction::PaletteDown);
    }
    act(state, GuiAction::Confirm);
}

#[test]
fn new_editor_starts_empty_and_silent() {
    let s = state();
    assert_eq!(s.mode(), Mode::Normal);
    assert_eq!(s.cursor(), GridPos::new(0, 0));
    assert!(s.modules().is_empty());
    assert_eq!(s.bpm(), 120);
    assert_eq!(s.scale_name(), "C min");
    assert_eq!(s.audio_status(), "Audio disabled");
    assert_eq!(s.document_status(), "Ready");
    assert_eq!(s.instrument_count(), 5);
    assert_eq!(s.track_text(), "(0/2/4/7)");
    assert_eq!(s.document_label(), "Untitled");
    assert!(!s.dirty());
}

#[test]
fn cursor_moves_and_stays_on_the_grid() {
    let mut s = GuiState::new(4, 3);
    act(&mut s, GuiAction::Right);
    assert_eq!(s.cursor(), GridPos::new(1, 0));
    act(&mut s, GuiAction::RightFast);
    assert_eq!(s.cursor(), GridPos::new(3, 0));
    act(&mut s, GuiAction::Left);
    act(&mut s, GuiAction::Up);
    assert_eq!(s.cursor(), GridPos::new(2, 0));
    act(&mut s, GuiAction::DownFast);
    assert_eq!(s.cursor(), GridPos::new(2, 2));
}

#[test]
fn palette_confirm_places_the_selected_kind_at_the_cursor() {
    let mut s = state();
    act(&mut s, GuiAction::OpenPalette);
    assert_eq!(s.mode(), Mode::Palette);
    assert_eq!(s.selected_palette_module(), ModuleKind::Osc);
    assert_eq!(s.selected_palette_label(), "Osc");
    act(&mut s, GuiAction::Confirm);
    assert_eq!(s.mode(), Mode::Normal);
    assert_eq!(s.modules().len(), 1);
    assert_eq!(s.modules()[0].kind(), ModuleKind::Osc);
    assert_eq!(s.modules()[0].id(), ModuleId::new(0));
    assert_eq!(s.modules()[0].position(), GridPos::new(0, 0));
    assert!(s.dirty());
    assert!(s.take_patch_sync());
    assert!(!s.take_patch_sync());
}

#[test]
fn undo_and_redo_restore_the_document() {
    let mut s = state();
    place(&mut s, ModuleCategory::Source, 0);
    assert_eq!(s.modules().len(), 1);
    act(&mut s, GuiAction::Undo);
    assert!(s.modules().is_empty());
    act(&mut s, GuiAction::Redo);
    assert_eq!(s.modules().len(), 1);
    assert_eq!(s.modules()[0].kind(), ModuleKind::Osc);
    act(&mut s, GuiAction::Redo);
    assert_eq!(s.modules().len(), 1);
}

#[test]
fn delete_removes_the_module_under_the_cursor() {
    let mut s = state();
    place(&mut s, ModuleCategory::Source, 0);
    act(&mut s, GuiAction::Right);
    act(&mut s, GuiAction::Delete);
    assert_eq!(s.modules().len(), 1);
    act(&mut s, GuiAction::Left);
    act(&mut s, GuiAction::Delete);
    assert!(s.modules().is_empty());
}

#[test]
fn quitting_a_changed_document_asks_first() {
    let mut s = state();
    act(&mut s, GuiAction::Quit);
    assert!(s.should_quit());
    let mut s = state();
    place(&mut s, ModuleCategory::Source, 0);
    act(&mut s, GuiAction::Quit);
    assert_eq!(s.mode(), Mode::QuitConfirm);
    assert!(!s.should_quit());
    act(&mut s, GuiAction::Cancel);
    assert_eq!(s.mode(), Mode::Normal);
    act(&mut s, GuiAction::Quit);
    act(&mut s, GuiAction::Confirm);
    assert!(s.should_quit());
}

#[test]
fn a_module_moves_with_the_cursor() {
    let mut s = state();
    place(&mut s, ModuleCategory::Source, 0);
    act(&mut s, GuiAction::Move);
    assert_eq!(
        s.mode(),
        Mode::Move {
            module: ModuleId::new(0),
            origin: GridPos::new(0, 0)
        }
    );
    act(&mut s, GuiAction::Right);
    act(&mut s, GuiAction::Right);
    act(&mut s, GuiAction::Down);
    act(&mut s, GuiAction::Confirm);
    assert_eq!(s.mode(), Mode::Normal);
    assert_eq!(s.modules()[0].position(), GridPos::new(2, 1));
}

#[test]
fn cancelling_a_move_returns_the_cursor() {
    let mut s = state();
    place(&mut s, ModuleCategory::Source, 0);
    act(&mut s, GuiAction::Move);
    act(&mut s, GuiAction::Right);
    act(&mut s, GuiAction::Cancel);
    assert_eq!(s.cursor(), GridPos::new(0, 0));
    assert_eq!(s.modules()[0].position(), GridPos::new(0, 0));
}

#[test]
fn a_copy_gets_a_fresh_id_at_the_cursor() {
    let mut s = state();
    place(&mut s, ModuleCategory::Source, 0);
    act(&mut s, GuiAction::Copy);
    act(&mut s, GuiAction::Down);
    act(&mut s, GuiAction::Down);
    act(&mut s, GuiAction::Confirm);
    assert_eq!(s.modules().len(), 2);
    assert_eq!(s.modules()[1].id(), ModuleId::new(1));
    assert_eq!(s.modules()[1].position(), GridPos::new(0, 2));
    assert_eq!(s.modules()[1].kind(), ModuleKind::Osc);
}

#[test]
fn rotating_turns_a_module_when_it_fits() {
    let mut s = state();
    place(&mut s, ModuleCategory::Filter, 0);
    assert_eq!(s.modules()[0].kind(), ModuleKind::Lowpass);
    act(&mut s, GuiAction::Rotate);
    assert_eq!(s.modules()[0].orientation(), Orientation::Down);
    act(&mut s, GuiAction::Rotate);
    assert_eq!(s.modules()[0].orientation(), Orientation::Right);
}

#[test]
fn a_drawn_selection_can_be_deleted() {
    let mut s = state();
    place(&mut s, ModuleCategory::Source, 0);
    act(&mut s, GuiAction::RightFast);
    place(&mut s, ModuleCategory::Source, 0);
    act(&mut s, GuiAction::RightFast);
    place(&mut s, ModuleCategory::Source, 0);
    assert_eq!(s.modules().len(), 3);
    act(&mut s, GuiAction::Select);
    act(&mut s, GuiAction::LeftFast);
    assert_eq!(
        s.selected_modules(),
        vec![ModuleId::new(1), ModuleId::new(2)]
    );
    act(&mut s, GuiAction::Delete);
    assert_eq!(s.mode(), Mode::Normal);
    assert_eq!(s.modules().len(), 1);
    assert_eq!(s.modules()[0].id(), ModuleId::new(0));
}

#[test]
fn track_settings_change_tempo_scale_and_probe_voice() {
    let mut s = state();
    act(&mut s, GuiAction::TrackSettings);
    act(&mut s, GuiAction::ValueUp);
    assert_eq!(s.bpm(), 125);
    act(&mut s, GuiAction::ValueUpFast);
    assert_eq!(s.bpm(), 145);
    assert!(s.take_track_sync());
    act(&mut s, GuiAction::Down);
    act(&mut s, GuiAction::ValueUp);
    assert_eq!(s.scale_index(), 3);
    assert_eq!(s.scale_name(), "C# maj");
    act(&mut s, GuiAction::Down);
    act(&mut s, GuiAction::ValueDown);
    assert_eq!(s.probe_voice(), 5);
    act(&mut s, GuiAction::Confirm);
    assert_eq!(s.mode(), Mode::Normal);
}

#[test]
fn tempo_stays_between_twenty_and_three_hundred() {
    let mut s = state();
    act(&mut s, GuiAction::TrackSettings);
    for _ in 0..10 {
        act(&mut s, GuiAction::ValueUpFast);
    }
    assert_eq!(s.bpm(), 300);
    for _ in 0..20 {
        act(&mut s, GuiAction::ValueDownFast);
    }
    assert_eq!(s.bpm(), 20);
}

#[test]
fn editing_steps_a_parameter_and_types_a_value() {
    let mut s = state();
    place(&mut s, ModuleCategory::Source, 0);
    act(&mut s, GuiAction::Edit);
    assert_eq!(
        s.mode(),
        Mode::Edit {
            module: ModuleId::new(0),
            parameter: 0
        }
    );
    act(&mut s, GuiAction::ValueUp);
    assert_eq!(s.modules()[0].parameters()[0].value_label(), "square");
    act(&mut s, GuiAction::Down);
    act(&mut s, GuiAction::TypeValue);
    assert_eq!(
        s.mode(),
        Mode::ValueInput {
            module: ModuleId::new(0),
            parameter: 1
        }
    );
    assert_eq!(s.prompt_text(), "440");
    assert_eq!(s.prompt_cursor(), 3);
    act(&mut s, GuiAction::Backspace);
    act(&mut s, GuiAction::Backspace);
    act(&mut s, GuiAction::Backspace);
    act(&mut s, GuiAction::InputChar('5'));
    act(&mut s, GuiAction::InputChar('x'));
    act(&mut s, GuiAction::InputChar('0'));
    act(&mut s, GuiAction::InputChar('0'));
    assert_eq!(s.prompt_text(), "500");
    s.apply(GuiAction::Confirm, Some(50_000));
    assert_eq!(s.modules()[0].parameters()[1].value_label(), "500.00");
    act(&mut s, GuiAction::Cancel);
    assert_eq!(s.mode(), Mode::Normal);
}

#[test]
fn export_offers_a_wav_path_and_asks_before_replacing() {
    let mut s = state();
    act(&mut s, GuiAction::Export);
    assert_eq!(s.mode(), Mode::ExportPrompt);
    assert_eq!(s.prompt_text(), "output.wav");
    act(&mut s, GuiAction::Up);
    assert_eq!(s.export_loops(), 2);
    act(&mut s, GuiAction::Confirm);
    assert_eq!(s.mode(), Mode::Normal);
    assert_eq!(s.exported_path(), Some("output.wav"));
    act(&mut s, GuiAction::Export);
    act(&mut s, GuiAction::Confirm);
    assert_eq!(s.mode(), Mode::ExportConfirm);
    act(&mut s, GuiAction::Cancel);
    assert_eq!(s.mode(), Mode::ExportPrompt);
}

#[test]
fn palette_search_finds_a_kind_by_part_of_its_name() {
    let mut s = state();
    act(&mut s, GuiAction::OpenPalette);
    act(&mut s, GuiAction::Search);
    assert!(s.palette_searching());
    act(&mut s, GuiAction::InputChar('l'));
    act(&mut s, GuiAction::InputChar('p'));
    assert_eq!(s.palette_filter(), "lp");
    assert_eq!(s.selected_filtered_palette_module(), Some(ModuleKind::Lowpass));
    act(&mut s, GuiAction::Confirm);
    assert_eq!(s.mode(), Mode::Normal);
    assert_eq!(s.modules()[0].kind(), ModuleKind::Lowpass);
}

#[test]
fn palette_categories_stop_at_the_ends() {
    let mut s = state();
    act(&mut s, GuiAction::OpenPalette);
    act(&mut s, GuiAction::PaletteLeft);
    assert_eq!(s.palette_category(), ModuleCategory::Source);
    act(&mut s, GuiAction::PaletteRight);
    assert_eq!(s.palette_category(), ModuleCategory::Output);
    for _ in 0..10 {
        act(&mut s, GuiAction::PaletteRight);
    }
    assert_eq!(s.palette_category(), ModuleCategory::Composition);
}

#[test]
fn user_compositions_wait_for_the_host_to_lay_them_out() {
    let mut s = state();
    s.set_user_compositions(vec!["My Module".to_string()]);
    act(&mut s, GuiAction::Palette(ModuleCategory::Composition));
    let names: Vec<String> = s.palette_modules().iter().map(|m| m.label().to_string()).collect();
    assert_eq!(names, vec!["Sub In", "Sub Out", "Composition", "My Module"]);
    act(&mut s, GuiAction::PaletteDown);
    act(&mut s, GuiAction::PaletteDown);
    act(&mut s, GuiAction::PaletteDown);
    act(&mut s, GuiAction::Confirm);
    assert_eq!(s.take_insert_request(), Some((ModuleKind::Composition, Some(0))));
    assert!(s.modules().is_empty());
}

#[test]
fn overlapping_modules_are_disabled() {
    let mut s = state();
    let root = PatchSurface {
        cursor: GridPos::new(0, 0),
        modules: vec![
            Module {
                id: ModuleId::new(4),
                position: GridPos::new(0, 0),
                orientation: Orientation::Right,
                body: ModuleKind::Lowpass.default_body(),
                disabled: false,
            },
            Module {
                id: ModuleId::new(9),
                position: GridPos::new(0, 5),
                orientation: Orientation::Right,
                body: ModuleKind::Osc.default_body(),
                disabled: false,
            },
        ],
    };
    assert!(s
        .set_project(root, None, 100, 40, "song.bw".to_string())
        .is_ok());
    assert_eq!(s.bpm(), 100);
    assert_eq!(s.scale_index(), 24);
    assert_eq!(s.document_label(), "song.bw");
    act(&mut s, GuiAction::DownFast);
    act(&mut s, GuiAction::Down);
    act(&mut s, GuiAction::Move);
    act(&mut s, GuiAction::UpFast);
    act(&mut s, GuiAction::Confirm);
    assert_eq!(s.modules()[1].position(), GridPos::new(0, 1));
    assert!(s.modules()[0].disabled());
    assert!(s.modules()[1].disabled());
    act(&mut s, GuiAction::Undo);
    assert!(!s.modules()[0].disabled());
    assert!(!s.modules()[1].disabled());
}

#[test]
fn a_project_outside_the_grid_is_refused() {
    let mut s = GuiState::new(8, 8);
    let root = PatchSurface {
        cursor: GridPos::new(0, 0),
        modules: vec![Module {
            id: ModuleId::new(3),
            position: GridPos::new(0, 7),
            orientation: Orientation::Right,
            body: ModuleKind::Lowpass.default_body(),
            disabled: false,
        }],
    };
    assert_eq!(
        s.set_project(root, None, 120, 2, "x.bw".to_string()),
        Err("module 3 is outside the grid".to_string())
    );
    assert!(s.modules().is_empty());
}

#[test]
fn loading_continues_ids_after_the_largest() {
    let mut s = state();
    let root = PatchSurface {
        cursor: GridPos::new(0, 0),
        modules: vec![Module {
            id: ModuleId::new(41),
            position: GridPos::new(3, 3),
            orientation: Orientation::Right,
            body: ModuleKind::Osc.default_body(),
            disabled: false,
        }],
    };
    assert!(s.set_project(root, Some("(0)".to_string()), 90, 1, "a/b.bw".to_string()).is_ok());
    assert_eq!(s.track_text(), "(0)");
    place(&mut s, ModuleCategory::Source, 0);
    assert_eq!(s.modules()[1].id(), ModuleId::new(42));
}

#[test]
fn save_outcomes_are_reported() {
    let mut s = state();
    place(&mut s, ModuleCategory::Source, 0);
    assert_eq!(s.document_label(), "Untitled *");
    s.finish_save("dir/song.bw".to_string(), Err("disk full".to_string()), false);
    assert_eq!(s.document_status(), "Save failed: disk full");
    assert!(s.dirty());
    s.finish_save("dir/song.bw".to_string(), Ok(()), false);
    assert_eq!(s.document_status(), "Saved song.bw");
    assert_eq!(s.saved_path(), Some("dir/song.bw"));
    assert!(!s.dirty());
}

#[test]
fn loading_a_changed_document_offers_to_save_first() {
    let mut s = state();
    place(&mut s, ModuleCategory::Source, 0);
    act(&mut s, GuiAction::Load);
    assert_eq!(s.mode(), Mode::LoadConfirm);
    act(&mut s, GuiAction::Confirm);
    assert!(s.take_save_request());
    assert!(s.take_load_after_save());
    assert_eq!(s.mode(), Mode::Normal);
    act(&mut s, GuiAction::Load);
    act(&mut s, GuiAction::Delete);
    assert!(s.take_load_request());
}

#[test]
fn entering_a_composition_edits_its_inside() {
    let mut s = state();
    place(&mut s, ModuleCategory::Composition, 2);
    assert_eq!(s.modules()[0].kind(), ModuleKind::Composition);
    act(&mut s, GuiAction::EditComposition);
    assert_eq!(s.composition_depth(), 1);
    assert!(s.modules().is_empty());
    place(&mut s, ModuleCategory::Composition, 0);
    assert_eq!(s.modules().len(), 1);
    assert_eq!(s.modules()[0].kind(), ModuleKind::CompositionInput);
    act(&mut s, GuiAction::ExitComposition);
    assert_eq!(s.composition_depth(), 0);
    assert_eq!(s.modules().len(), 1);
    assert_eq!(s.modules()[0].kind(), ModuleKind::Composition);
}

#[test]
fn the_grid_view_follows_the_cursor() {
    let mut s = state();
    s.set_grid_view_size(GridViewSize::new(8, 6));
    act(&mut s, GuiAction::RightFast);
    act(&mut s, GuiAction::RightFast);
    act(&mut s, GuiAction::RightFast);
    assert_eq!(s.cursor(), GridPos::new(12, 0));
    assert!(s.grid_view.x > 0);
    assert!(s.grid_view.x + 8 > 12);
}

#[test]
fn connections_join_an_output_to_the_input_beside_it() {
    let mut s = state();
    place(&mut s, ModuleCategory::Source, 0);
    act(&mut s, GuiAction::Right);
    place(&mut s, ModuleCategory::Output, 0);
    let connections = s.connections();
    assert_eq!(connections.len(), 1);
    assert_eq!(connections[0].from(), ModuleId::new(0));
    assert_eq!(connections[0].to(), ModuleId::new(1));
    assert_eq!(connections[0].output(), 0);
    assert_eq!(connections[0].input(), 0);
}

#[test]
fn set_audio_unavailable_reports_the_reason() {
    let mut s = state();
    s.set_audio_unavailable("no device");
    assert_eq!(s.audio_status(), "Audio disabled: no device");
}

#[test]
fn the_probe_length_doubles_and_halves_within_bounds() {
    let mut s = state();
    s.mode = Mode::ProbeEdit {
        module: ModuleId::new(0),
    };
    act(&mut s, GuiAction::ValueUp);
    assert_eq!(s.probe_len(), 8820);
    act(&mut s, GuiAction::ValueUpFast);
    assert_eq!(s.probe_len(), 35280);
    act(&mut s, GuiAction::ValueUpFast);
    assert_eq!(s.probe_len(), 88200);
    act(&mut s, GuiAction::Delete);
    assert_eq!(s.probe_len(), 4410);
    for _ in 0..20 {
        act(&mut s, GuiAction::ValueDown);
    }
    assert_eq!(s.probe_len(), 8);
}

#[test]
fn default_module_body_matches_module_kind() {
    for kind in brainwash_gui::kind::all_modules() {
        let body = kind.default_body();
        assert_eq!(body.kind(), kind);
        assert_eq!(body.env_points().is_empty(), kind != ModuleKind::Envelope);
    }
}
