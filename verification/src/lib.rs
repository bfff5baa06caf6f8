use vstd::prelude::*;

pub mod cache;
pub mod err_tools;
pub mod load;
pub mod locate;
pub mod segment;
pub mod watcher;

pub use err_tools::ErrorX;
pub use load::get_file;
pub use locate::{find_file_path, validate_file_existence};
pub use segment::{has_alphanumeric, make_separate, LineSeparation};

use cache::SharedTextCache;
use segment::spec_separated;
use watcher::FileWatcher;

verus! {

/// Splits a command line into the argument vector the program runs on. The
/// caller passes every argument it was given, program name included; anything
/// short of a program name and one file name is refused.
pub fn get_args(args: Vec<String>) -> (r: Result<Vec<String>, Box<err_tools::ErrorX>>)
    ensures
        args@.len() >= 2 ==> (r matches Ok(a) && a == args),
        args@.len() < 2 ==> (r matches Err(e) && e@
            == "You need to give 2 arguments if you want to pass a file!"@),
{
    if args.len() < 2 {
        return Err(err_tools::ErrorX::new_box(
            "You need to give 2 arguments if you want to pass a file!",
        ));
    }
    Ok(args)
}

/// What one render tick puts in the text body: the whole snapshot as one
/// block, the whole snapshot as an editable field, or one block per segment.
pub enum RenderContent {
    Single(String),
    Editable(String),
    Separated(Vec<String>),
}

/// The state of the viewer: the watch target, the shared snapshot cache, the
/// watcher, and the display options the render side owns.
pub struct LiveWatch {
    pub filename: String,
    pub file: SharedTextCache,
    pub font_size: u32,
    pub watcher: FileWatcher,
    pub word_wrap: bool,
    pub line_separation: LineSeparation,
    pub selectable_text_mode: bool,
}

impl LiveWatch {
    /// The display options never ask for an editable field while line
    /// separation is on.
    pub open spec fn wf(&self) -> bool {
        self.selectable_text_mode ==> self.line_separation is Off
    }

    /// A fresh viewer on the given target, holding the initial snapshot, with
    /// the watcher not yet subscribed and every display option at its default.
    pub fn new(filename: String, initial_text: String) -> (lw: LiveWatch)
        ensures
            lw.filename@ == filename@,
            lw.file@ == initial_text@,
            lw.font_size == 30,
            !lw.watcher.is_watching(),
            lw.watcher.target() == filename@,
            lw.word_wrap,
            lw.line_separation is Off,
            !lw.selectable_text_mode,
            lw.wf(),
    {
        let watcher = FileWatcher::new(filename.clone());
        let file = SharedTextCache::new(initial_text);
        LiveWatch {
            filename,
            file,
            font_size: 30,
            watcher,
            word_wrap: true,
            line_separation: LineSeparation::Off,
            selectable_text_mode: false,
        }
    }

    /// An independent copy of the current snapshot, for one render tick.
    pub fn risky_get_fstring(&self) -> (r: String)
        ensures
            r@ == self.file@,
    {
        self.file.read_copy()
    }

    /// Flips word wrap; nothing else moves.
    pub fn toggle_word_wrap(&mut self)
        ensures
            final(self).word_wrap == !old(self).word_wrap,
            final(self).filename == old(self).filename,
            final(self).file == old(self).file,
            final(self).font_size == old(self).font_size,
            final(self).watcher == old(self).watcher,
            final(self).line_separation == old(self).line_separation,
            final(self).selectable_text_mode == old(self).selectable_text_mode,
    {
        self.word_wrap = !self.word_wrap;
    }

    /// One click on a separation radio button: it always leaves the editable
    /// mode, and it turns the chosen separation mode off when it was already
    /// active and on otherwise.
    pub fn toggle_separation(&mut self, option: LineSeparation)
        ensures
            !final(self).selectable_text_mode,
            final(self).line_separation == (if old(self).line_separation == option {
                LineSeparation::Off
            } else {
                option
            }),
            final(self).filename == old(self).filename,
            final(self).file == old(self).file,
            final(self).font_size == old(self).font_size,
            final(self).watcher == old(self).watcher,
            final(self).word_wrap == old(self).word_wrap,
    {
        if self.selectable_text_mode {
            self.selectable_text_mode = false;
        }
        if self.line_separation == option {
            self.line_separation = LineSeparation::Off;
        } else {
            self.line_separation = option;
        }
    }

    /// One click on the editable-mode radio button: it flips the mode, and
    /// entering it turns line separation off.
    pub fn toggle_selectable(&mut self)
        ensures
            final(self).selectable_text_mode == !old(self).selectable_text_mode,
            final(self).line_separation == (if final(self).selectable_text_mode {
                LineSeparation::Off
            } else {
                old(self).line_separation
            }),
            final(self).wf(),
            final(self).filename == old(self).filename,
            final(self).file == old(self).file,
            final(self).font_size == old(self).font_size,
            final(self).watcher == old(self).watcher,
            final(self).word_wrap == old(self).word_wrap,
    {
        self.selectable_text_mode = !self.selectable_text_mode;
        if self.selectable_text_mode {
            self.line_separation = LineSeparation::Off;
        }
    }

    /// Sets the font size; nothing else moves.
    pub fn set_font_size(&mut self, size: u32)
        ensures
            final(self).font_size == size,
            final(self).filename == old(self).filename,
            final(self).file == old(self).file,
            final(self).watcher == old(self).watcher,
            final(self).word_wrap == old(self).word_wrap,
            final(self).line_separation == old(self).line_separation,
            final(self).selectable_text_mode == old(self).selectable_text_mode,
    {
        self.font_size = size;
    }

    /// What one render tick shows in the text body, decided by the display
    /// options over the current snapshot: the whole snapshot as one block or
    /// as an editable field while separation is off, and otherwise one block
    /// per segment of the chosen separation mode.
    pub fn render_body(&self) -> (r: RenderContent)
        ensures
            (self.line_separation is Off && !self.selectable_text_mode) ==> (r matches
                RenderContent::Single(s) && s@ == self.file@),
            (self.line_separation is Off && self.selectable_text_mode) ==> (r matches
                RenderContent::Editable(s) && s@ == self.file@),
            !(self.line_separation is Off) ==> (r matches RenderContent::Separated(segs)
                && segs.deep_view() == spec_separated(self.file@, self.line_separation)),
    {
        match self.line_separation {
            LineSeparation::Off => {
                let s = self.risky_get_fstring();
                if !self.selectable_text_mode {
                    RenderContent::Single(s)
                } else {
                    RenderContent::Editable(s)
                }
            },
            _ => {
                let s = self.risky_get_fstring();
                RenderContent::Separated(make_separate(&s, self.line_separation))
            },
        }
    }
}

} // verus!
