//! The user-facing configuration model: which folders take part in the
//! backup, which gesture starts and which confirms it, and which file
//! kinds pass the filter. Reading and writing the configuration file,
//! the settings window and its dialogs live with the caller; the pure
//! rules (applying a settings message, completeness of the form, the
//! extension filter) are verified here.

use vstd::prelude::*;

use crate::classify::Segno;

verus! {

/// The settings form's state: the folders, the two gestures, and the
/// file-kind checkboxes.
#[derive(Clone, Debug)]
pub struct MyApp {
    pub text_cartella_sorgente: String,
    pub text_drive_destinazione: String,
    pub text_directory_log: String,
    pub radio_segno_avvio: Option<Segno>,
    pub radio_segno_conferma: Option<Segno>,
    pub check_img: bool,
    pub check_video: bool,
    pub check_music: bool,
    pub check_doc: bool,
}

/// The values handed to the control loop, field for field those of the
/// settings form.
#[derive(Clone, Debug)]
pub struct OutputValue {
    pub text_cartella_sorgente: String,
    pub text_drive_destinazione: String,
    pub text_directory_log: String,
    pub radio_segno_avvio: Option<Segno>,
    pub radio_segno_conferma: Option<Segno>,
    pub check_img: bool,
    pub check_video: bool,
    pub check_music: bool,
    pub check_doc: bool,
}

/// One interaction with the settings form. The folder-picker buttons and
/// the save button only trigger dialogs and persistence, which the caller
/// performs; applying a message never does I/O.
#[derive(Clone, Debug)]
pub enum Message {
    InputCartellaSorgente(String),
    InputDriveDestinazione(String),
    InputDirectoryLog(String),
    ButtonCartellaSorgente,
    ButtonDriveDestinazione,
    ButtonDirectoryLog,
    ButtonSalva,
    SegnoSelectedAvvio(Segno),
    SegnoSelectedConferma(Segno),
    CheckboxImg,
    CheckboxVideo,
    CheckboxMusic,
    CheckboxDoc,
}

/// The form state after one message: text inputs and gesture choices
/// replace their field, checkboxes toggle theirs, and the button messages
/// leave the state as it is (their dialogs and persistence are the
/// caller's).
pub open spec fn spec_apply_message(app: MyApp, msg: Message) -> MyApp {
    match msg {
        Message::InputCartellaSorgente(v) => MyApp { text_cartella_sorgente: v, ..app },
        Message::InputDriveDestinazione(v) => MyApp { text_drive_destinazione: v, ..app },
        Message::InputDirectoryLog(v) => MyApp { text_directory_log: v, ..app },
        Message::ButtonCartellaSorgente => app,
        Message::ButtonDriveDestinazione => app,
        Message::ButtonDirectoryLog => app,
        Message::ButtonSalva => app,
        Message::SegnoSelectedAvvio(s) => MyApp { radio_segno_avvio: Some(s), ..app },
        Message::SegnoSelectedConferma(s) => MyApp { radio_segno_conferma: Some(s), ..app },
        Message::CheckboxImg => MyApp { check_img: !app.check_img, ..app },
        Message::CheckboxVideo => MyApp { check_video: !app.check_video, ..app },
        Message::CheckboxMusic => MyApp { check_music: !app.check_music, ..app },
        Message::CheckboxDoc => MyApp { check_doc: !app.check_doc, ..app },
    }
}

impl MyApp {
    /// Every field the save step insists on is filled in: the three paths
    /// are non-empty and both gestures are chosen.
    pub open spec fn spec_complete(self) -> bool {
        &&& self.text_cartella_sorgente@.len() > 0
        &&& self.text_drive_destinazione@.len() > 0
        &&& self.text_directory_log@.len() > 0
        &&& self.radio_segno_avvio is Some
        &&& self.radio_segno_conferma is Some
    }

    /// The initial form state: every path points at the given folder, both
    /// gestures default to the rectangle, and no file-kind filter is set.
    pub fn initial(desktop: String) -> (r: MyApp)
        ensures
            r.text_cartella_sorgente@ == desktop@,
            r.text_drive_destinazione@ == desktop@,
            r.text_directory_log@ == desktop@,
            r.radio_segno_avvio == Some(Segno::Rettangolo),
            r.radio_segno_conferma == Some(Segno::Rettangolo),
            !r.check_img,
            !r.check_video,
            !r.check_music,
            !r.check_doc,
    {
        let drive = desktop.clone();
        let log = desktop.clone();
        MyApp {
            text_cartella_sorgente: desktop,
            text_drive_destinazione: drive,
            text_directory_log: log,
            radio_segno_avvio: Some(Segno::Rettangolo),
            radio_segno_conferma: Some(Segno::Rettangolo),
            check_img: false,
            check_video: false,
            check_music: false,
            check_doc: false,
        }
    }

    /// Apply one settings message to the form state.
    pub fn apply_message(&mut self, msg: Message)
        ensures
            *final(self) == spec_apply_message(*old(self), msg),
    {
        match msg {
            Message::InputCartellaSorgente(v) => {
                self.text_cartella_sorgente = v;
            },
            Message::InputDriveDestinazione(v) => {
                self.text_drive_destinazione = v;
            },
            Message::InputDirectoryLog(v) => {
                self.text_directory_log = v;
            },
            Message::ButtonCartellaSorgente => (),
            Message::ButtonDriveDestinazione => (),
            Message::ButtonDirectoryLog => (),
            Message::ButtonSalva => (),
            Message::SegnoSelectedAvvio(s) => {
                self.radio_segno_avvio = Some(s);
            },
            Message::SegnoSelectedConferma(s) => {
                self.radio_segno_conferma = Some(s);
            },
            Message::CheckboxImg => {
                self.check_img = !self.check_img;
            },
            Message::CheckboxVideo => {
                self.check_video = !self.check_video;
            },
            Message::CheckboxMusic => {
                self.check_music = !self.check_music;
            },
            Message::CheckboxDoc => {
                self.check_doc = !self.check_doc;
            },
        }
    }

    /// Check that the form is complete enough to save: the validation the
    /// save button runs before anything is persisted. Whether the source
    /// folder exists on disk is the caller's check.
    pub fn fields_complete(&self) -> (r: bool)
        ensures
            r == self.spec_complete(),
    {
        !self.text_cartella_sorgente.as_str().is_empty()
            && !self.text_drive_destinazione.as_str().is_empty()
            && !self.text_directory_log.as_str().is_empty()
            && self.radio_segno_avvio.is_some()
            && self.radio_segno_conferma.is_some()
    }

    /// Hand the form's values over to the control loop, field for field.
    pub fn into_output(self) -> (r: OutputValue)
        ensures
            r.text_cartella_sorgente == self.text_cartella_sorgente,
            r.text_drive_destinazione == self.text_drive_destinazione,
            r.text_directory_log == self.text_directory_log,
            r.radio_segno_avvio == self.radio_segno_avvio,
            r.radio_segno_conferma == self.radio_segno_conferma,
            r.check_img == self.check_img,
            r.check_video == self.check_video,
            r.check_music == self.check_music,
            r.check_doc == self.check_doc,
    {
        OutputValue {
            text_cartella_sorgente: self.text_cartella_sorgente,
            text_drive_destinazione: self.text_drive_destinazione,
            text_directory_log: self.text_directory_log,
            radio_segno_avvio: self.radio_segno_avvio,
            radio_segno_conferma: self.radio_segno_conferma,
            check_img: self.check_img,
            check_video: self.check_video,
            check_music: self.check_music,
            check_doc: self.check_doc,
        }
    }
}

/// The file extensions the chosen checkboxes admit into the backup, in a
/// fixed order; with no checkbox set, the single marker entry admitting
/// every file.
pub open spec fn spec_filter_exts(video: bool, doc: bool, img: bool, music: bool) -> Seq<
    Seq<char>,
> {
    if !video && !doc && !img && !music {
        seq!["all"@]
    } else {
        (if video {
            seq!["mp4"@, "avi"@, "mov"@]
        } else {
            Seq::empty()
        }) + (if doc {
            seq!["pdf"@, "docx"@, "xlsx"@, "pptx"@]
        } else {
            Seq::empty()
        }) + (if img {
            seq!["png"@, "jpg"@, "gif"@]
        } else {
            Seq::empty()
        }) + (if music {
            seq!["mp3"@, "wav"@]
        } else {
            Seq::empty()
        })
    }
}

/// Build the extension filter list from the four checkboxes.
pub fn filter_extensions(check_video: bool, check_doc: bool, check_img: bool, check_music: bool)
    -> (r: Vec<String>)
    ensures
        r@.map_values(|s: String| s@) == spec_filter_exts(
            check_video,
            check_doc,
            check_img,
            check_music,
        ),
{
    let mut v: Vec<String> = Vec::new();
    if !check_video && !check_doc && !check_img && !check_music {
        v.push("all".to_owned());
        proof {
            assert(v@.map_values(|s: String| s@) =~= spec_filter_exts(
                check_video,
                check_doc,
                check_img,
                check_music,
            ));
        }
        return v;
    }
    if check_video {
        v.push("mp4".to_owned());
        v.push("avi".to_owned());
        v.push("mov".to_owned());
    }
    if check_doc {
        v.push("pdf".to_owned());
        v.push("docx".to_owned());
        v.push("xlsx".to_owned());
        v.push("pptx".to_owned());
    }
    if check_img {
        v.push("png".to_owned());
        v.push("jpg".to_owned());
        v.push("gif".to_owned());
    }
    if check_music {
        v.push("mp3".to_owned());
        v.push("wav".to_owned());
    }
    proof {
        assert(v@.map_values(|s: String| s@) =~= spec_filter_exts(
            check_video,
            check_doc,
            check_img,
            check_music,
        ));
    }
    v
}

} // verus!
