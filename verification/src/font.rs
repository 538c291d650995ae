//! Following the system message font: the fields that decide whether the
//! font changed, and the manager that remembers the font last applied.

use vstd::prelude::*;

verus! {

/// The fields of a `LOGFONT` that tell two fonts apart, with the face name
/// read up to its terminating NUL.
#[derive(Debug, Clone, PartialEq, Eq)]
pub struct LogFontKey {
    pub height: i32,
    pub width: i32,
    pub weight: i32,
    pub italic: u8,
    pub underline: u8,
    pub strike_out: u8,
    pub char_set: u8,
    pub face_name: String,
}

/// [`LogFontKey`] as plain values.
pub struct LogFontView {
    pub height: i32,
    pub width: i32,
    pub weight: i32,
    pub italic: u8,
    pub underline: u8,
    pub strike_out: u8,
    pub char_set: u8,
    pub face_name: Seq<char>,
}

impl View for LogFontKey {
    type V = LogFontView;

    open spec fn view(&self) -> LogFontView {
        LogFontView {
            height: self.height,
            width: self.width,
            weight: self.weight,
            italic: self.italic,
            underline: self.underline,
            strike_out: self.strike_out,
            char_set: self.char_set,
            face_name: self.face_name@,
        }
    }
}

/// Whether two fonts have the same configuration, field by field.
pub fn is_logfont_equal(current_logfont: &LogFontKey, target_logfont: &LogFontKey) -> (result: bool)
    ensures
        result == (current_logfont@ == target_logfont@),
{
    current_logfont.height == target_logfont.height && current_logfont.width == target_logfont.width
        && current_logfont.weight == target_logfont.weight && current_logfont.italic == target_logfont.italic
        && current_logfont.underline == target_logfont.underline && current_logfont.strike_out
        == target_logfont.strike_out && current_logfont.char_set == target_logfont.char_set
        && current_logfont.face_name == target_logfont.face_name
}

/// The outcome of synchronizing the application font with system metrics.
#[derive(Debug, Clone, Copy, PartialEq, Eq, Structural)]
pub enum FontSyncResult {
    /// The font changed and the new one is to be applied to all controls.
    Changed,
    /// The system font matches the active font; nothing to do.
    Unchanged,
}

/// Remembers the font last applied to the window and its controls.
#[derive(Debug)]
pub struct FontManager {
    current_logfont: Option<LogFontKey>,
}

impl FontManager {
    /// The font last applied, if any.
    pub closed spec fn applied(&self) -> Option<LogFontView> {
        match self.current_logfont {
            Some(f) => Some(f@),
            None => None,
        }
    }

    /// A manager that has applied no font yet.
    pub fn new() -> (result: Self)
        ensures
            result.applied() == None::<LogFontView>,
    {
        FontManager { current_logfont: None }
    }

    /// Whether `target` differs from the font last applied (always true
    /// before the first font).
    pub fn requires_update(&self, target: &LogFontKey) -> (result: bool)
        ensures
            result == (self.applied() != Some(target@)),
    {
        match &self.current_logfont {
            Some(current) => !is_logfont_equal(current, target),
            None => true,
        }
    }

    /// Records that `target` has been applied.
    pub fn record_applied_font(&mut self, target: LogFontKey)
        ensures
            final(self).applied() == Some(target@),
    {
        self.current_logfont = Some(target);
    }

    /// Synchronizes with the system font `target`: unchanged when it is the
    /// font last applied; otherwise it becomes the applied font.
    pub fn sync_system_font(&mut self, target: LogFontKey) -> (result: FontSyncResult)
        ensures
            old(self).applied() == Some(target@) ==> result == FontSyncResult::Unchanged && final(self).applied()
                == old(self).applied(),
            old(self).applied() != Some(target@) ==> result == FontSyncResult::Changed && final(self).applied()
                == Some(target@),
    {
        if self.requires_update(&target) {
            self.record_applied_font(target);
            FontSyncResult::Changed
        } else {
            FontSyncResult::Unchanged
        }
    }
}

impl Default for FontManager {
    fn default() -> (result: Self)
        ensures
            result.applied() == None::<LogFontView>,
    {
        FontManager::new()
    }
}

} // verus!
