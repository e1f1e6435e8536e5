use gesture_gate::classify::Segno;
use gesture_gate::config::Message;
use gesture_gate::config::MyApp;
use gesture_gate::config::filter_extensions;

fn sample_app() -> MyApp {
    MyApp::initial("desk".to_owned())
}

#[test]
fn initial_state_points_everything_at_the_given_folder() {
    let app = sample_app();
    assert_eq!(app.text_cartella_sorgente, "desk");
    assert_eq!(app.text_drive_destinazione, "desk");
    assert_eq!(app.text_directory_log, "desk");
    assert_eq!(app.radio_segno_avvio, Some(Segno::Rettangolo));
    assert_eq!(app.radio_segno_conferma, Some(Segno::Rettangolo));
    assert!(!app.check_img && !app.check_video && !app.check_music && !app.check_doc);
}

#[test]
fn text_messages_replace_their_field_only() {
    let mut app = sample_app();
    app.apply_message(Message::InputCartellaSorgente("src".to_owned()));
    assert_eq!(app.text_cartella_sorgente, "src");
    assert_eq!(app.text_drive_destinazione, "desk");
    app.apply_message(Message::InputDriveDestinazione("dst".to_owned()));
    assert_eq!(app.text_drive_destinazione, "dst");
    app.apply_message(Message::InputDirectoryLog("log".to_owned()));
    assert_eq!(app.text_directory_log, "log");
    assert_eq!(app.text_cartella_sorgente, "src");
}

#[test]
fn gesture_choices_replace_their_field() {
    let mut app = sample_app();
    app.apply_message(Message::SegnoSelectedAvvio(Segno::Cerchio));
    app.apply_message(Message::SegnoSelectedConferma(Segno::Meno));
    assert_eq!(app.radio_segno_avvio, Some(Segno::Cerchio));
    assert_eq!(app.radio_segno_conferma, Some(Segno::Meno));
}

#[test]
fn checkboxes_toggle() {
    let mut app = sample_app();
    app.apply_message(Message::CheckboxImg);
    app.apply_message(Message::CheckboxVideo);
    assert!(app.check_img && app.check_video);
    app.apply_message(Message::CheckboxImg);
    assert!(!app.check_img && app.check_video);
    app.apply_message(Message::CheckboxMusic);
    app.apply_message(Message::CheckboxDoc);
    assert!(app.check_music && app.check_doc);
}

#[test]
fn button_messages_change_nothing_by_themselves() {
    let mut app = sample_app();
    app.apply_message(Message::ButtonCartellaSorgente);
    app.apply_message(Message::ButtonDriveDestinazione);
    app.apply_message(Message::ButtonDirectoryLog);
    app.apply_message(Message::ButtonSalva);
    assert_eq!(app.text_cartella_sorgente, "desk");
    assert_eq!(app.text_drive_destinazione, "desk");
    assert_eq!(app.text_directory_log, "desk");
    assert_eq!(app.radio_segno_avvio, Some(Segno::Rettangolo));
    assert_eq!(app.radio_segno_conferma, Some(Segno::Rettangolo));
}

#[test]
fn completeness_needs_every_field() {
    let mut app = sample_app();
    assert!(app.fields_complete());
    app.apply_message(Message::InputCartellaSorgente(String::new()));
    assert!(!app.fields_complete());
    app.apply_message(Message::InputCartellaSorgente("src".to_owned()));
    assert!(app.fields_complete());
    let empty = MyApp::initial(String::new());
    assert!(!empty.fields_complete());
}

#[test]
fn output_value_carries_every_field_over() {
    let mut app = sample_app();
    app.apply_message(Message::CheckboxDoc);
    app.apply_message(Message::SegnoSelectedAvvio(Segno::Cerchio));
    let out = app.into_output();
    assert_eq!(out.text_cartella_sorgente, "desk");
    assert_eq!(out.text_drive_destinazione, "desk");
    assert_eq!(out.text_directory_log, "desk");
    assert_eq!(out.radio_segno_avvio, Some(Segno::Cerchio));
    assert_eq!(out.radio_segno_conferma, Some(Segno::Rettangolo));
    assert!(out.check_doc);
    assert!(!out.check_img && !out.check_video && !out.check_music);
}

#[test]
fn no_checkbox_admits_every_file() {
    let exts = filter_extensions(false, false, false, false);
    assert_eq!(exts, vec!["all".to_owned()]);
}

#[test]
fn single_checkboxes_pick_their_extensions() {
    assert_eq!(filter_extensions(true, false, false, false), vec!["mp4", "avi", "mov"]);
    assert_eq!(filter_extensions(false, true, false, false), vec!["pdf", "docx", "xlsx", "pptx"]);
    assert_eq!(filter_extensions(false, false, true, false), vec!["png", "jpg", "gif"]);
    assert_eq!(filter_extensions(false, false, false, true), vec!["mp3", "wav"]);
}

#[test]
fn all_checkboxes_list_every_extension_in_order() {
    let exts = filter_extensions(true, true, true, true);
    let expect = vec![
        "mp4", "avi", "mov", "pdf", "docx", "xlsx", "pptx", "png", "jpg", "gif", "mp3", "wav",
    ];
    assert_eq!(exts, expect);
}
