//! What the viewport shows and what the status line says.

use crate::input::service::SearchDirection;
use crate::paths::{buf_path, file_name_text, path_buf_as_path, path_file_name};
use crate::text::string_push;
use vstd::prelude::*;

verus! {

/// The viewport: where it starts in the file, the lines it shows, and the status line.
#[derive(Debug)]
pub struct ViewState {
    /// Byte offset of the first line shown.
    pub viewport_top_byte: u64,
    /// The lines shown.
    pub visible_lines: Vec<String>,
    /// The status line.
    pub status_line: StatusLine,
    /// The file shown.
    pub file_path: std::path::PathBuf,
    /// File size in bytes, once known.
    pub file_size: Option<u64>,
    pub viewport_width: u16,
    pub viewport_height: u16,
    /// Highlighted byte ranges of each shown line, by viewport line.
    pub search_highlights: Vec<Vec<(usize, usize)>>,
    /// Navigation has run into the end of the file.
    pub at_eof: bool,
}

/// Lines of a page in a viewport of `height` rows: one row is the status line.
pub open spec fn page_lines(height: u16) -> u16 {
    if height == 0 {
        0
    } else {
        (height - 1) as u16
    }
}

impl ViewState {
    /// A viewport at the start of `file_path`, empty, with the given size.
    pub fn new(file_path: std::path::PathBuf, viewport_width: u16, viewport_height: u16) -> (r: Self)
        ensures
            r.viewport_top_byte == 0,
            r.visible_lines@.len() == 0,
            r.status_line.message is None,
            r.status_line.search_prompt is None,
            r.file_path == file_path,
            r.file_size is None,
            r.viewport_width == viewport_width,
            r.viewport_height == viewport_height,
            r.search_highlights@.len() == 0,
            !r.at_eof,
    {
        ViewState {
            viewport_top_byte: 0,
            visible_lines: Vec::new(),
            status_line: StatusLine::new(),
            file_path,
            file_size: None,
            viewport_width,
            viewport_height,
            search_highlights: Vec::new(),
            at_eof: false,
        }
    }

    /// The file's name for display, `<unnamed>` when the path has no UTF-8 final
    /// component.
    pub fn filename(&self) -> (r: String)
        ensures
            r@ == match file_name_text(buf_path(&self.file_path)) {
                Some(name) => name,
                None => "<unnamed>"@,
            },
    {
        match path_file_name(path_buf_as_path(&self.file_path)) {
            Some(name) => name.to_owned(),
            None => "<unnamed>".to_owned(),
        }
    }

    /// The view's status line, with `percent_text` standing for the position when the
    /// position is shown as a percentage of a file of known size (an unknown size counts
    /// as an empty file): the search prompt while one is open, otherwise the file name,
    /// the position and any message.
    pub fn status_line_text(&self, percent_text: String) -> (r: String)
        ensures
            ({
                let name = match file_name_text(buf_path(&self.file_path)) {
                    Some(name) => name,
                    None => "<unnamed>"@,
                };
                let total = match self.file_size {
                    Some(size) => size,
                    None => 0,
                };
                let label = position_of(self.viewport_top_byte, total, self.at_eof);
                match self.status_line.search_prompt {
                    Some((d, b)) => r@ == prompt_text(d, b@),
                    None => r@ == position_text(
                        name,
                        label_text(label, percent_text@),
                        match self.status_line.message {
                            Some(m) => Some(m@),
                            None => None,
                        },
                    ),
                }
            }),
    {
        let total = match self.file_size {
            Some(size) => size,
            None => 0,
        };
        let label = StatusLine::position_label(self.viewport_top_byte, total, self.at_eof);
        let position = label.text(percent_text);
        let name = self.filename();
        self.status_line.compose(name.as_str(), position.as_str())
    }

    /// Lines per page: the viewport height minus the status line.
    pub fn lines_per_page(&self) -> (r: u16)
        ensures
            r == page_lines(self.viewport_height),
    {
        self.viewport_height.saturating_sub(1)
    }

    /// Number of lines shown.
    pub fn viewport_line_count(&self) -> (r: usize)
        ensures
            r == self.visible_lines@.len(),
    {
        self.visible_lines.len()
    }

    /// Move the top of the viewport to `byte_position`.
    pub fn navigate_to_byte(&mut self, byte_position: u64)
        ensures
            *final(self) == (ViewState { viewport_top_byte: byte_position, ..*old(self) }),
    {
        self.viewport_top_byte = byte_position;
    }

    /// Replace the shown lines and their highlights.
    pub fn update_viewport_content(
        &mut self,
        lines: Vec<String>,
        highlights: Vec<Vec<(usize, usize)>>,
    )
        ensures
            *final(self) == (ViewState {
                visible_lines: lines,
                search_highlights: highlights,
                ..*old(self)
            }),
    {
        self.visible_lines = lines;
        self.search_highlights = highlights;
    }

    /// Take a new terminal size. When it differs, the shown content and the end-of-file
    /// mark are dropped, to be loaded again. Returns whether the size changed.
    pub fn update_terminal_size(&mut self, width: u16, height: u16) -> (r: bool)
        ensures
            r == (old(self).viewport_width != width || old(self).viewport_height != height),
            !r ==> *final(self) == *old(self),
            r ==> {
                &&& final(self).viewport_width == width
                &&& final(self).viewport_height == height
                &&& final(self).visible_lines@.len() == 0
                &&& final(self).search_highlights@.len() == 0
                &&& !final(self).at_eof
                &&& final(self).viewport_top_byte == old(self).viewport_top_byte
                &&& final(self).status_line == old(self).status_line
                &&& final(self).file_path == old(self).file_path
                &&& final(self).file_size == old(self).file_size
            },
    {
        let changed = self.viewport_width != width || self.viewport_height != height;
        if changed {
            self.viewport_width = width;
            self.viewport_height = height;
            self.visible_lines.clear();
            self.search_highlights.clear();
            self.at_eof = false;
        }
        changed
    }
}

/// The position label of a viewport starting at `current_byte` in a file of
/// `total_bytes` bytes: `Empty` for an empty file, `EndOfData` after navigation hit the
/// end, `End` at or past the end, otherwise a percentage.
pub open spec fn position_of(current_byte: u64, total_bytes: u64, at_eof: bool) -> PositionLabel {
    if total_bytes == 0 {
        PositionLabel::Empty
    } else if at_eof {
        PositionLabel::EndOfData
    } else if current_byte >= total_bytes {
        PositionLabel::End
    } else {
        PositionLabel::Percent { current: current_byte, total: total_bytes }
    }
}

/// The text of `label`, with `percent_text` standing for a percentage.
pub open spec fn label_text(label: PositionLabel, percent_text: Seq<char>) -> Seq<char> {
    match label {
        PositionLabel::Empty => "Empty"@,
        PositionLabel::EndOfData => "EOD"@,
        PositionLabel::End => "END"@,
        PositionLabel::Percent { .. } => percent_text,
    }
}

/// Where the viewport stands, as the status line shows it.
#[derive(Debug, Clone, Copy, PartialEq, Eq, Structural)]
pub enum PositionLabel {
    /// The file is empty.
    Empty,
    /// Navigation ran into the end of the file.
    EndOfData,
    /// The viewport starts at or past the end of the file.
    End,
    /// The viewport starts `current` bytes into a file of `total` bytes; the status line
    /// shows the percentage, rounded to a whole number.
    Percent { current: u64, total: u64 },
}

impl PositionLabel {
    /// The label's text: `Empty`, `EOD`, `END`, or `percent_text` for a percentage.
    pub fn text(self, percent_text: String) -> (r: String)
        ensures
            self == PositionLabel::Empty ==> r@ == "Empty"@,
            self == PositionLabel::EndOfData ==> r@ == "EOD"@,
            self == PositionLabel::End ==> r@ == "END"@,
            self is Percent ==> r@ == percent_text@,
    {
        proof {
            reveal_strlit("Empty");
            reveal_strlit("EOD");
            reveal_strlit("END");
        }
        match self {
            PositionLabel::Empty => "Empty".to_owned(),
            PositionLabel::EndOfData => "EOD".to_owned(),
            PositionLabel::End => "END".to_owned(),
            PositionLabel::Percent { .. } => percent_text,
        }
    }
}

/// The status line's transient content.
#[derive(Debug, Clone)]
pub struct StatusLine {
    /// A temporary message shown after the position.
    pub message: Option<String>,
    /// The search prompt while a search is typed.
    pub search_prompt: Option<(SearchDirection, String)>,
}

/// The status line text when a search prompt is open: its direction character, then
/// the typed text.
pub open spec fn prompt_text(direction: SearchDirection, buffer: Seq<char>) -> Seq<char> {
    seq![direction.prompt_char()] + buffer
}

/// The status line text otherwise: `file | position`, then ` | message` when there is a
/// message.
pub open spec fn position_text(filename: Seq<char>, position: Seq<char>, message: Option<Seq<char>>) -> Seq<char> {
    match message {
        Some(m) => filename + " | "@ + position + " | "@ + m,
        None => filename + " | "@ + position,
    }
}

impl StatusLine {
    /// An empty status line.
    pub fn new() -> (r: Self)
        ensures
            r.message is None,
            r.search_prompt is None,
    {
        StatusLine { message: None, search_prompt: None }
    }

    /// Show a temporary message.
    pub fn set_message(&mut self, message: String)
        ensures
            final(self).message == Some(message),
            final(self).search_prompt == old(self).search_prompt,
    {
        self.message = Some(message);
    }

    /// Drop the temporary message.
    pub fn clear_message(&mut self)
        ensures
            final(self).message is None,
            final(self).search_prompt == old(self).search_prompt,
    {
        self.message = None;
    }

    /// Open an empty search prompt.
    pub fn set_search_prompt(&mut self, direction: SearchDirection)
        ensures
            final(self).search_prompt matches Some((d, b)) && d == direction && b@.len() == 0,
            final(self).message == old(self).message,
    {
        self.search_prompt = Some((direction, String::new()));
    }

    /// Show `buffer` in the search prompt.
    pub fn update_search_prompt(&mut self, direction: SearchDirection, buffer: String)
        ensures
            final(self).search_prompt == Some((direction, buffer)),
            final(self).message == old(self).message,
    {
        self.search_prompt = Some((direction, buffer));
    }

    /// Close the search prompt.
    pub fn clear_search_prompt(&mut self)
        ensures
            final(self).search_prompt is None,
            final(self).message == old(self).message,
    {
        self.search_prompt = None;
    }

    /// Where a viewport starting at `current_byte` of `total_bytes` stands: `Empty` for an
    /// empty file, `EndOfData` after navigation hit the end, `End` at or past the end,
    /// otherwise a percentage.
    pub fn position_label(current_byte: u64, total_bytes: u64, at_eof: bool) -> (r: PositionLabel)
        ensures
            r == position_of(current_byte, total_bytes, at_eof),
    {
        if total_bytes == 0 {
            PositionLabel::Empty
        } else if at_eof {
            PositionLabel::EndOfData
        } else if current_byte >= total_bytes {
            PositionLabel::End
        } else {
            PositionLabel::Percent { current: current_byte, total: total_bytes }
        }
    }

    /// The status line text: the search prompt when one is open, otherwise the file name,
    /// the position text and the message, separated by ` | `.
    pub fn compose(&self, filename: &str, position: &str) -> (r: String)
        ensures
            self.search_prompt matches Some((d, b)) ==> r@ == prompt_text(d, b@),
            self.search_prompt is None ==> r@ == position_text(
                filename@,
                position@,
                match self.message {
                    Some(m) => Some(m@),
                    None => None,
                },
            ),
    {
        proof {
            reveal_strlit(" | ");
        }
        match &self.search_prompt {
            Some((direction, buffer)) => {
                let mut out = String::new();
                string_push(&mut out, direction.to_char());
                out.append(buffer.as_str());
                assert(out@ =~= prompt_text(*direction, buffer@));
                out
            },
            None => {
                let mut out = filename.to_owned();
                out.append(" | ");
                out.append(position);
                if let Some(message) = &self.message {
                    out.append(" | ");
                    out.append(message.as_str());
                }
                out
            },
        }
    }
}

impl Default for StatusLine {
    fn default() -> (r: Self)
        ensures
            r.message is None,
            r.search_prompt is None,
    {
        Self::new()
    }
}

/// Current display mode.
#[derive(Debug, Clone, Copy, PartialEq, Eq, Structural)]
pub enum DisplayMode {
    Normal,
    Search(SearchDirection),
    Command,
    Help,
}

impl DisplayMode {
    /// The mode indicator shown on screen.
    pub fn indicator(&self) -> (r: &'static str)
        ensures
            r@ == match *self {
                DisplayMode::Normal => ""@,
                DisplayMode::Search(SearchDirection::Forward) => "/"@,
                DisplayMode::Search(SearchDirection::Backward) => "?"@,
                DisplayMode::Command => ":"@,
                DisplayMode::Help => "HELP"@,
            },
    {
        match self {
            DisplayMode::Normal => "",
            DisplayMode::Search(SearchDirection::Forward) => "/",
            DisplayMode::Search(SearchDirection::Backward) => "?",
            DisplayMode::Command => ":",
            DisplayMode::Help => "HELP",
        }
    }

    /// The mode takes typed text: search and command modes do.
    pub fn accepts_input(&self) -> (r: bool)
        ensures
            r == (*self is Search || *self is Command),
    {
        match self {
            DisplayMode::Search(_) | DisplayMode::Command => true,
            _ => false,
        }
    }
}

} // verus!
