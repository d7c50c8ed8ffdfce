use voice_catalog::models::Model;
use voice_catalog::voices::Voice;
use voice_catalog::voices::VoiceCounts;
use voice_catalog::voices::Voices;

fn gs_drums() -> Voices {
    // The eight drum kits of the Roland GS drum bank.
    Voices(vec![
        Voice::new(127, 0, 1, "Standard Kit"),
        Voice::new(127, 0, 9, "Room Kit"),
        Voice::new(127, 0, 17, "Rock Kit"),
        Voice::new(127, 0, 25, "Electro Kit"),
        Voice::new(127, 0, 26, "Analog Kit"),
        Voice::new(127, 0, 33, "Jazz Kit"),
        Voice::new(127, 0, 41, "Brush Kit"),
        Voice::new(127, 0, 49, "Symphony Kit"),
    ])
}

fn general_bank() -> Voices {
    // A general melodic bank: 128 voices, all with bank select MSB 0.
    let mut voices = Vec::new();
    for i in 0..128u8 {
        voices.push(Voice::new(0, 0, i + 1, "Voice"));
    }
    Voices(voices)
}

#[test]
fn rendering_is_deterministic() {
    let model = Model {
        name: "MU5".to_string(),
        year: 1994,
        voicesets: vec![general_bank(), gs_drums()],
    };
    assert_eq!(model.render(true), model.render(true));
    assert_eq!(model.render(false), model.render(false));
}

#[test]
fn header_names_manufacturer_model_and_year() {
    let model = Model { name: "MU5".to_string(), year: 1994, voicesets: vec![] };
    let report = model.render(true);
    let first = report.lines().next().unwrap();
    assert_eq!(first, "Yamaha MU5 (1994):");
}

#[test]
fn kit_bank_report_counts_eight_kits() {
    let model = Model { name: "MU5".to_string(), year: 1994, voicesets: vec![gs_drums()] };
    let report = model.render(true);
    let expected = "Yamaha MU5 (1994):\n\
                    127-000-001 Standard Kit\n\
                    127-000-009 Room Kit\n\
                    127-000-017 Rock Kit\n\
                    127-000-025 Electro Kit\n\
                    127-000-026 Analog Kit\n\
                    127-000-033 Jazz Kit\n\
                    127-000-041 Brush Kit\n\
                    127-000-049 Symphony Kit\n\
                    Total number of voices: 8 (0 instruments, 0 sound effects, 8 kits)\n";
    assert_eq!(report, expected);
}

#[test]
fn combined_banks_report_totals_across_banks() {
    let model = Model {
        name: "MU5".to_string(),
        year: 1994,
        voicesets: vec![general_bank(), gs_drums()],
    };
    let report = model.render(true);
    let last = report.lines().last().unwrap();
    assert_eq!(last, "Total number of voices: 136 (128 instruments, 0 sound effects, 8 kits)");
    assert_eq!(report.lines().count(), 1 + 136 + 1);
}

#[test]
fn empty_model_renders_header_only() {
    let model = Model { name: "QY10".to_string(), year: 1990, voicesets: vec![] };
    assert_eq!(model.render(false), "Yamaha QY10 (1990):\n");
    assert_eq!(
        model.render(true),
        "Yamaha QY10 (1990):\nTotal number of voices: 0 (0 instruments, 0 sound effects, 0 kits)\n"
    );
}

#[test]
fn totals_flag_only_adds_the_summary_line() {
    let model = Model { name: "MU5".to_string(), year: 1994, voicesets: vec![gs_drums()] };
    let with_totals = model.render(true);
    let without_totals = model.render(false);
    let summary = gs_drums().voicecount().render();
    assert_eq!(with_totals, format!("{}{}", without_totals, summary));
}

#[test]
fn bank_rows_render_in_listed_order() {
    let bank = Voices(vec![
        Voice::new(0, 0, 1, "Grand Piano"),
        Voice::new(0, 0, 2, "Bright Piano"),
    ]);
    assert_eq!(bank.render(), "000-000-001 Grand Piano\n000-000-002 Bright Piano\n");
}

#[test]
fn summary_line_spells_out_each_category() {
    let counts = VoiceCounts { instruments: 480, sfx: 53, kits: 10 };
    assert_eq!(
        counts.render(),
        "Total number of voices: 543 (480 instruments, 53 sound effects, 10 kits)\n"
    );
}
