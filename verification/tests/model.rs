use brainwash_gui::body::{Module, PatchSurface};
use brainwash_gui::grid::{GridPos, Orientation};
use brainwash_gui::param::{apply_connected, connected_mask};
use brainwash_gui::surface::update_surface_disabled_states;
use brainwash_gui::grid::ModuleId;
use brainwash_gui::kind::{ModuleCategory, ModuleKind};
use brainwash_gui::state::{GuiAction, GuiState};
use brainwash_gui::telemetry::{
    history_positions, meter_route_inputs, meter_value_index, next_probe_cursor, probe_value_index,
    shown_voice, slot_id, writing_mark, VoiceMode, PROBE_HISTORY,
};

#[test]
fn bus_positions_follow_voice_slot_and_position() {
    assert_eq!(probe_value_index(1, 2, 3), 882_003);
    assert_eq!(meter_value_index(2, 5, 7), 2_095);
    assert_eq!(next_probe_cursor(41), 42);
    assert_eq!(shown_voice(9), 5);
    assert_eq!(shown_voice(3), 3);
    assert_eq!(slot_id(ModuleId::new(4)), 5);
    assert_eq!(slot_id(ModuleId::new(u32::MAX)), u32::MAX);
    assert_eq!(writing_mark(3), 0x8000_0003);
    assert_eq!(meter_route_inputs(0), None);
    assert_eq!(meter_route_inputs(8), Some(8));
    assert_eq!(meter_route_inputs(9), None);
    assert_eq!(VoiceMode::Single.count(), 1);
    assert_eq!(VoiceMode::Polyphonic.count(), 6);
}

#[test]
fn a_probe_read_walks_the_newest_samples_in_order() {
    assert_eq!(
        history_positions(2, 5),
        vec![PROBE_HISTORY - 3, PROBE_HISTORY - 2, PROBE_HISTORY - 1, 0, 1]
    );
    assert_eq!(history_positions(10, 3), vec![7, 8, 9]);
    assert_eq!(history_positions(0, PROBE_HISTORY + 5).len(), PROBE_HISTORY);
}

#[test]
fn palette_search_ignores_case() {
    let mut lower = GuiState::new(32, 24);
    let mut upper = GuiState::new(32, 24);
    for (state, text) in [(&mut lower, "lp"), (&mut upper, "LP")] {
        state.apply(GuiAction::OpenPalette, None);
        state.apply(GuiAction::Search, None);
        for c in text.chars() {
            state.apply(GuiAction::InputChar(c), None);
        }
    }
    assert_eq!(upper.palette_filter(), "LP");
    assert_eq!(
        upper.selected_filtered_palette_module(),
        lower.selected_filtered_palette_module()
    );
    assert_eq!(upper.selected_filtered_palette_module(), Some(ModuleKind::Lowpass));
}

#[test]
fn every_category_has_a_name_and_every_kind_a_category() {
    let names: Vec<&str> = ModuleCategory::all().iter().map(|c| c.label()).collect();
    assert_eq!(names.len(), 8);
    for kind in brainwash_gui::kind::all_modules() {
        assert!(ModuleCategory::all().contains(&kind.category()));
        assert!(!kind.label().is_empty());
    }
}

#[test]
fn every_kind_has_a_name_of_its_own() {
    let kinds = [
        ModuleKind::Osc,
        ModuleKind::Lowpass,
        ModuleKind::Highpass,
        ModuleKind::Delay,
        ModuleKind::DelayTap,
        ModuleKind::Reverb,
        ModuleKind::Rise,
        ModuleKind::Rate,
        ModuleKind::CompositionInput,
        ModuleKind::CompositionOutput,
    ];
    for (i, a) in kinds.iter().enumerate() {
        assert!(!a.label().is_empty());
        for b in kinds.iter().skip(i + 1) {
            assert_ne!(a.label(), b.label());
        }
    }
    assert_eq!(ModuleKind::Rise.label(), "Rise");
    assert_eq!(ModuleKind::Rate.label(), "Rate");
}

#[test]
fn writing_back_a_row_changes_nothing() {
    for kind in [ModuleKind::Osc, ModuleKind::Comb, ModuleKind::Rise, ModuleKind::Compressor, ModuleKind::Adsr] {
        let body = kind.default_body();
        let rows = body.parameters();
        for (i, row) in rows.into_iter().enumerate() {
            let mut written = kind.default_body();
            written.set_parameter(i, row);
            assert_eq!(written, body);
        }
    }
}

#[test]
fn palette_entries_stay_in_their_category_in_palette_order() {
    for category in ModuleCategory::all() {
        let entries = brainwash_gui::palette::palette_modules_for(category, &vec!["Mine".to_string()]);
        for entry in &entries {
            assert_eq!(entry.category(), category);
        }
        let builtin: Vec<ModuleKind> = brainwash_gui::kind::all_modules()
            .into_iter()
            .filter(|kind| kind.category() == category)
            .collect();
        for (i, kind) in builtin.iter().enumerate() {
            assert_eq!(entries[i].kind(), *kind);
        }
    }
}

#[test]
fn connected_flags_survive_their_mask() {
    assert_eq!(connected_mask(&[(0, true), (1, false), (2, true)]), 5);
    let mut rows = ModuleKind::Adsr.default_body().parameters();
    rows[0].connected = true;
    rows[1].connected = false;
    rows[2].connected = true;
    let pairs: Vec<(usize, bool)> = rows.iter().enumerate().map(|(i, r)| (i, r.connected)).collect();
    let before = rows.clone();
    apply_connected(&mut rows, connected_mask(&pairs));
    assert_eq!(rows, before);
}

#[test]
fn exactly_the_overlapping_modules_are_disabled() {
    let module = |id: u32, x: u16, y: u16| Module {
        id: ModuleId::new(id),
        position: GridPos::new(x, y),
        orientation: Orientation::Right,
        body: ModuleKind::Osc.default_body(),
        disabled: false,
    };
    let mut surface = PatchSurface {
        cursor: GridPos::new(0, 0),
        modules: vec![module(1, 0, 0), module(2, 0, 0), module(3, 10, 10)],
    };
    update_surface_disabled_states(&mut surface);
    assert!(surface.modules[0].disabled);
    assert!(surface.modules[1].disabled);
    assert!(!surface.modules[2].disabled);
}
