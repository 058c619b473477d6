//! Files and directories of a disk: the kinds of file, the entries of a
//! directory, and the parsing of a directory listing from its text.

use crate::error::{Rs1541Error, Rs1541ErrorView};
use crate::text::{
    chars_equal, chars_of, contains, contains_chars, decimal, lines, lines_of, pad_left,
    parse_unsigned, parse_unsigned_chars, push_decimal, push_decimal_padded, push_fill, repeated,
    string_of,
    trim, trim_chars, trim_end, trim_end_chars, views,
};
use vstd::prelude::*;
use vstd::std_specs::convert::FromSpecImpl;
use vstd::string::StringExecFns;

verus! {

/// The number of bytes of a file that one block of a disk holds.
pub const BYTES_PER_BLOCK: u64 = 254;

/// The kinds of file on a disk.
#[derive(Debug, Clone, Copy, PartialEq, Eq, Structural)]
pub enum CbmFileType {
    PRG,
    SEQ,
    USR,
    REL,
    Unknown,
}

/// The upper-case form of a text, as `str::to_uppercase` gives it.
pub uninterp spec fn uppercase(text: Seq<char>) -> Seq<char>;

/// Calls `str::to_uppercase`, which maps every character of `text` to its
/// upper-case form under Unicode's rules.
#[verifier::external_body]
fn to_uppercase(text: &str) -> (upper: String)
    ensures
        upper@ == uppercase(text@),
{
    text.to_uppercase()
}

impl CbmFileType {
    /// The kind of file that the upper-case name `upper` stands for.
    pub open spec fn of_upper(upper: Seq<char>) -> CbmFileType {
        if upper == "PRG"@ {
            CbmFileType::PRG
        } else if upper == "SEQ"@ {
            CbmFileType::SEQ
        } else if upper == "USR"@ {
            CbmFileType::USR
        } else if upper == "REL"@ {
            CbmFileType::REL
        } else {
            CbmFileType::Unknown
        }
    }

    /// The suffix that selects the kind of file in a file name.
    pub open spec fn suffix(self) -> Seq<char> {
        match self {
            CbmFileType::PRG => ",P"@,
            CbmFileType::SEQ => ",S"@,
            CbmFileType::USR => ",U"@,
            CbmFileType::REL => ",R"@,
            CbmFileType::Unknown => ""@,
        }
    }

    /// The name of the kind of file, in lower case.
    pub open spec fn text(self) -> Seq<char> {
        match self {
            CbmFileType::PRG => "prg"@,
            CbmFileType::SEQ => "seq"@,
            CbmFileType::USR => "usr"@,
            CbmFileType::REL => "rel"@,
            CbmFileType::Unknown => ""@,
        }
    }

    /// The suffix that selects the kind of file in a file name.
    pub fn _to_suffix(&self) -> (suffix: &'static str)
        ensures
            suffix@ == self.suffix(),
    {
        match self {
            CbmFileType::PRG => ",P",
            CbmFileType::SEQ => ",S",
            CbmFileType::USR => ",U",
            CbmFileType::REL => ",R",
            CbmFileType::Unknown => "",
        }
    }

    /// The name of the kind of file, in lower case.
    pub fn to_string(&self) -> (name: String)
        ensures
            name@ == self.text(),
    {
        match self {
            CbmFileType::PRG => "prg".to_owned(),
            CbmFileType::SEQ => "seq".to_owned(),
            CbmFileType::USR => "usr".to_owned(),
            CbmFileType::REL => "rel".to_owned(),
            CbmFileType::Unknown => "".to_owned(),
        }
    }

    /// The kind of file that the upper-case name `upper` stands for.
    pub fn from_upper(upper: &str) -> (kind: Self)
        ensures
            kind == CbmFileType::of_upper(upper@),
    {
        let name = chars_of(upper);
        if chars_equal(name.as_slice(), chars_of("PRG").as_slice()) {
            CbmFileType::PRG
        } else if chars_equal(name.as_slice(), chars_of("SEQ").as_slice()) {
            CbmFileType::SEQ
        } else if chars_equal(name.as_slice(), chars_of("USR").as_slice()) {
            CbmFileType::USR
        } else if chars_equal(name.as_slice(), chars_of("REL").as_slice()) {
            CbmFileType::REL
        } else {
            CbmFileType::Unknown
        }
    }
}

impl<'a> From<&'a str> for CbmFileType {
    /// The kind of file that `name` stands for, whatever the case of its
    /// letters.
    fn from(name: &'a str) -> (kind: Self) {
        let upper = to_uppercase(name);
        CbmFileType::from_upper(upper.as_str())
    }
}

impl<'a> FromSpecImpl<&'a str> for CbmFileType {
    open spec fn obeys_from_spec() -> bool {
        true
    }

    open spec fn from_spec(name: &'a str) -> Self {
        CbmFileType::of_upper(uppercase(name@))
    }
}

/// The ways to open a file.
#[derive(Debug, Clone, Copy, PartialEq, Eq, Structural)]
pub enum CbmFileMode {
    Read,
    Write,
    Append,
}

impl CbmFileMode {
    /// The suffix that selects the mode in a file name.
    pub open spec fn suffix(self) -> Seq<char> {
        match self {
            CbmFileMode::Read => ""@,
            CbmFileMode::Write => ",W"@,
            CbmFileMode::Append => ",A"@,
        }
    }

    /// The suffix that selects the mode in a file name.
    pub fn _to_suffix(&self) -> (suffix: &'static str)
        ensures
            suffix@ == self.suffix(),
    {
        match self {
            CbmFileMode::Read => "",
            CbmFileMode::Write => ",W",
            CbmFileMode::Append => ",A",
        }
    }
}

/// One line of a directory: a file, or a line that could not be read as one.
#[derive(Debug)]
pub enum CbmFileEntry {
    /// A file, with its size in blocks, its name and its kind.
    ValidFile { blocks: u16, filename: String, file_type: CbmFileType },
    /// A line that is no file, with the reason and with what could be read
    /// of it all the same.
    InvalidFile {
        raw_line: String,
        error: String,
        partial_blocks: Option<u16>,
        partial_filename: Option<String>,
    },
}

/// The mathematical value of a [`CbmFileEntry`].
pub enum CbmFileEntryView {
    ValidFile { blocks: u16, filename: Seq<char>, file_type: CbmFileType },
    InvalidFile {
        raw_line: Seq<char>,
        error: Seq<char>,
        partial_blocks: Option<u16>,
        partial_filename: Option<Seq<char>>,
    },
}

/// An optional string taken by its characters.
pub open spec fn option_text(text: Option<String>) -> Option<Seq<char>> {
    match text {
        Some(t) => Some(t@),
        None => None,
    }
}

impl View for CbmFileEntry {
    type V = CbmFileEntryView;

    open spec fn view(&self) -> CbmFileEntryView {
        match self {
            CbmFileEntry::ValidFile { blocks, filename, file_type } => CbmFileEntryView::ValidFile {
                blocks: *blocks,
                filename: filename@,
                file_type: *file_type,
            },
            CbmFileEntry::InvalidFile { raw_line, error, partial_blocks, partial_filename } =>
                CbmFileEntryView::InvalidFile {
                raw_line: raw_line@,
                error: error@,
                partial_blocks: *partial_blocks,
                partial_filename: option_text(*partial_filename),
            },
        }
    }
}

impl Clone for CbmFileEntry {
    fn clone(&self) -> (copy: Self)
        ensures
            copy@ == self@,
    {
        match self {
            CbmFileEntry::ValidFile { blocks, filename, file_type } => CbmFileEntry::ValidFile {
                blocks: *blocks,
                filename: filename.clone(),
                file_type: *file_type,
            },
            CbmFileEntry::InvalidFile { raw_line, error, partial_blocks, partial_filename } =>
                CbmFileEntry::InvalidFile {
                raw_line: raw_line.clone(),
                error: error.clone(),
                partial_blocks: *partial_blocks,
                partial_filename: match partial_filename {
                    Some(name) => Some(name.clone()),
                    None => None,
                },
            },
        }
    }
}

impl CbmFileEntryView {
    /// The number of blocks of the entry, as far as it is known.
    pub open spec fn known_blocks(self) -> Option<u16> {
        match self {
            CbmFileEntryView::ValidFile { blocks, .. } => Some(blocks),
            CbmFileEntryView::InvalidFile { partial_blocks, .. } => partial_blocks,
        }
    }

    /// The number of blocks that the entry counts for in the sum of the
    /// blocks in use: those of a file, and none for a line that is no file.
    pub open spec fn valid_blocks(self) -> nat {
        match self {
            CbmFileEntryView::ValidFile { blocks, .. } => blocks as nat,
            CbmFileEntryView::InvalidFile { .. } => 0,
        }
    }

    /// The entry as a line of text.
    ///
    /// A file is shown with its name and kind in quotes, then spaces up to
    /// column 25 where the name leaves room for any, then its blocks in a
    /// field of three. A line that is no file is shown with the reason and
    /// with what could be read of it.
    pub open spec fn text(self) -> Seq<char> {
        match self {
            CbmFileEntryView::ValidFile { blocks, filename, file_type } => {
                let used = vstd::utf8::encode_utf8(filename).len() + 4;
                let gap = if used <= 25 {
                    (25 - used) as nat
                } else {
                    0
                };
                "Filename: \""@ + filename + "."@ + file_type.text() + "\""@ + repeated(' ', gap)
                    + "Blocks: "@ + pad_left(decimal(blocks as nat), 3, ' ')
            },
            CbmFileEntryView::InvalidFile { raw_line, error, partial_blocks, partial_filename } => {
                "Invalid entry: "@ + raw_line + " ("@ + error + ")"@ + (match partial_filename {
                    Some(name) => " [Filename: \""@ + name + "\"]"@,
                    None => Seq::empty(),
                }) + (match partial_blocks {
                    Some(blocks) => " [Blocks: "@ + decimal(blocks as nat) + "]"@,
                    None => Seq::empty(),
                })
            },
        }
    }
}

impl CbmFileEntry {
    /// The largest size in bytes that the file can have: 254 for each block,
    /// where the number of blocks is known.
    pub fn max_size(&self) -> (size: Option<u64>)
        ensures
            size == match self@.known_blocks() {
                Some(blocks) => Some((blocks as u64 * BYTES_PER_BLOCK) as u64),
                None => None,
            },
    {
        match self {
            CbmFileEntry::ValidFile { blocks, .. } => Some((*blocks as u64) * BYTES_PER_BLOCK),
            CbmFileEntry::InvalidFile { partial_blocks, .. } => match partial_blocks {
                Some(blocks) => Some((*blocks as u64) * BYTES_PER_BLOCK),
                None => None,
            },
        }
    }

    /// The entry as a line of text.
    pub fn to_string(&self) -> (out: String)
        ensures
            out@ == self@.text(),
    {
        let mut out = String::new();
        match self {
            CbmFileEntry::ValidFile { blocks, filename, file_type } => {
                out.append("Filename: \"");
                out.append(filename.as_str());
                out.append(".");
                out.append(file_type.to_string().as_str());
                out.append("\"");
                let length: usize = filename.as_str().as_bytes().len();
                let gap: usize = if length <= 21 {
                    21 - length
                } else {
                    0
                };
                push_fill(&mut out, gap, ' ');
                out.append("Blocks: ");
                push_decimal_padded(&mut out, *blocks as u64, 3, ' ');
            },
            CbmFileEntry::InvalidFile { raw_line, error, partial_blocks, partial_filename } => {
                out.append("Invalid entry: ");
                out.append(raw_line.as_str());
                out.append(" (");
                out.append(error.as_str());
                out.append(")");
                match partial_filename {
                    Some(name) => {
                        out.append(" [Filename: \"");
                        out.append(name.as_str());
                        out.append("\"]");
                    },
                    None => {
                        assert(out@ + Seq::<char>::empty() == out@);
                    },
                }
                match partial_blocks {
                    Some(blocks) => {
                        out.append(" [Blocks: ");
                        push_decimal(&mut out, *blocks as u64);
                        out.append("]");
                    },
                    None => {
                        assert(out@ + Seq::<char>::empty() == out@);
                    },
                }
            },
        }
        out
    }
}

/// The header of a directory: the drive, and the name and the id of the disk.
#[derive(Debug)]
pub struct CbmDiskHeader {
    pub drive_number: u8,
    pub name: String,
    pub id: String,
}

/// The mathematical value of a [`CbmDiskHeader`].
pub struct CbmDiskHeaderView {
    pub drive_number: u8,
    pub name: Seq<char>,
    pub id: Seq<char>,
}

impl View for CbmDiskHeader {
    type V = CbmDiskHeaderView;

    open spec fn view(&self) -> CbmDiskHeaderView {
        CbmDiskHeaderView { drive_number: self.drive_number, name: self.name@, id: self.id@ }
    }
}

impl Clone for CbmDiskHeader {
    fn clone(&self) -> (copy: Self)
        ensures
            copy@ == self@,
    {
        CbmDiskHeader {
            drive_number: self.drive_number,
            name: self.name.clone(),
            id: self.id.clone(),
        }
    }
}

impl CbmDiskHeaderView {
    /// The header as a line of text.
    pub open spec fn text(self) -> Seq<char> {
        "Drive "@ + decimal(self.drive_number as nat) + " Header: \""@ + self.name + "\" ID: "@
            + self.id
    }
}

impl CbmDiskHeader {
    /// The greatest length of the name of a disk.
    pub const MAX_NAME_LENGTH: usize = 16;

    /// The length of the id of a disk.
    pub const ID_LENGTH: usize = 2;

    /// The header as a line of text.
    pub fn to_string(&self) -> (out: String)
        ensures
            out@ == self@.text(),
    {
        let mut out = String::new();
        out.append("Drive ");
        push_decimal(&mut out, self.drive_number as u64);
        out.append(" Header: \"");
        out.append(self.name.as_str());
        out.append("\" ID: ");
        out.append(self.id.as_str());
        out
    }
}


/// The error that `regex::Regex::new` returns for a pattern it refuses.
#[verifier::external_type_specification]
#[verifier::external_body]
pub struct ExRegexError(regex::Error);

/// Whether `regex::Regex::new` accepts `pattern`.
pub uninterp spec fn regex_accepts(pattern: Seq<char>) -> bool;

/// What `Regex::captures` finds for `pattern` in `text`: nothing where the
/// pattern matches nowhere, and where it matches, the text of each capture
/// group of the leftmost match. Group 0 is the whole match, the others follow
/// in the order of their opening brackets, and a group that took no part in
/// the match has no text.
pub uninterp spec fn regex_captures(pattern: Seq<char>, text: Seq<char>) -> Option<
    Seq<Option<Seq<char>>>,
>;

/// The capture groups of a match, each taken by its characters.
pub open spec fn groups_view(found: Option<Vec<Option<String>>>) -> Option<Seq<Option<Seq<char>>>> {
    match found {
        Some(groups) => Some(groups@.map_values(|g: Option<String>| option_text(g))),
        None => None,
    }
}

/// Compiles `pattern` with `regex::Regex::new` and searches `text` with
/// `Regex::captures`. Each capture group is handed out as an owned string.
///
/// The pattern is either refused, with the crate's error, or accepted; both
/// depend on the pattern alone. What is found depends on the pattern and the
/// text alone.
#[verifier::external_body]
fn capture_groups(pattern: &str, text: &str) -> (r: Result<
    Option<Vec<Option<String>>>,
    regex::Error,
>)
    ensures
        r is Ok <==> regex_accepts(pattern@),
        r matches Ok(found) ==> groups_view(found) == regex_captures(pattern@, text@),
{
    let compiled = regex::Regex::new(pattern)?;
    let found = compiled.captures(text);
    Ok(found.map(|caps| caps.iter().map(|group| group.map(|m| m.as_str().to_string())).collect()))
}

/// The pattern of the first line of a directory: the drive number, a dot, the
/// name of the disk in quotes, a space and the two characters of the id.
pub open spec fn header_pattern() -> Seq<char> {
    "^\\s*(\\d+)\\s+\\.\"([^\"]*)\" ([a-zA-Z0-9]{2})"@
}

/// The pattern of a file in a directory: the number of blocks, the name in
/// quotes and the kind, and nothing else on the line.
pub open spec fn file_pattern() -> Seq<char> {
    "^\\s*(\\d+)\\s+\"([^\"]+)\"\\s+(\\w+)\\s*$"@
}

/// The pattern of the last line of a directory: the number of free blocks in
/// front of the words `blocks free`.
pub open spec fn blocks_free_pattern() -> Seq<char> {
    "^\\s*(\\d+)\\s+blocks free"@
}

/// The text of capture group `index`, or no text where the group is missing.
pub open spec fn group_text(groups: Seq<Option<Seq<char>>>, index: int) -> Seq<char> {
    if 0 <= index < groups.len() && groups[index] is Some {
        groups[index]->0
    } else {
        Seq::empty()
    }
}

/// A parse error with the text `message`.
pub open spec fn parse_error(message: Seq<char>) -> Rs1541ErrorView {
    Rs1541ErrorView::Parse { message }
}

/// The header that the capture groups `found` of the header pattern give for
/// the line `line`.
///
/// Without a match the line is no header. With one, group 1 is the drive
/// number, which must fit in a byte, group 2 the name, which is kept without
/// the white space at its end, and group 3 the id.
pub open spec fn header_of(line: Seq<char>, found: Option<Seq<Option<Seq<char>>>>) -> Result<
    CbmDiskHeaderView,
    Rs1541ErrorView,
> {
    match found {
        None => Err(parse_error("Invalid header format: "@ + line)),
        Some(groups) => match parse_unsigned(group_text(groups, 1), 255) {
            None => Err(parse_error("Invalid drive number: "@ + group_text(groups, 1))),
            Some(drive) => Ok(
                CbmDiskHeaderView {
                    drive_number: drive as u8,
                    name: trim_end(group_text(groups, 2)),
                    id: group_text(groups, 3),
                },
            ),
        },
    }
}

/// The entry that the capture groups `found` of the file pattern give for the
/// line `line`.
///
/// Without a match the line is kept as one that could not be read. With one,
/// group 1 is the number of blocks, group 2 the name, with all its spaces, and
/// group 3 the kind. A number of blocks beyond 65535 makes the line invalid,
/// and the name is kept with it.
pub open spec fn entry_of(
    line: Seq<char>,
    found: Option<Seq<Option<Seq<char>>>>,
) -> CbmFileEntryView {
    match found {
        None => CbmFileEntryView::InvalidFile {
            raw_line: line,
            error: "Could not parse line format"@,
            partial_blocks: None,
            partial_filename: None,
        },
        Some(groups) => match parse_unsigned(trim(group_text(groups, 1)), 65535) {
            None => CbmFileEntryView::InvalidFile {
                raw_line: line,
                error: "Invalid block count"@,
                partial_blocks: None,
                partial_filename: Some(group_text(groups, 2)),
            },
            Some(blocks) => CbmFileEntryView::ValidFile {
                blocks: blocks as u16,
                filename: group_text(groups, 2),
                file_type: CbmFileType::of_upper(uppercase(group_text(groups, 3))),
            },
        },
    }
}

/// The number of free blocks that the capture groups `found` of the pattern
/// for the last line give for the line `line`.
pub open spec fn blocks_free_of(line: Seq<char>, found: Option<Seq<Option<Seq<char>>>>) -> Result<
    u16,
    Rs1541ErrorView,
> {
    match found {
        None => Err(parse_error("Invalid blocks free format: "@ + line)),
        Some(groups) => match parse_unsigned(group_text(groups, 1), 65535) {
            None => Err(parse_error("Invalid blocks free number: "@ + group_text(groups, 1))),
            Some(blocks) => Ok(blocks as u16),
        },
    }
}

/// What reading the line `line` as the header of a directory gives.
pub open spec fn parse_header_spec(line: Seq<char>) -> Result<CbmDiskHeaderView, Rs1541ErrorView> {
    if regex_accepts(header_pattern()) {
        header_of(line, regex_captures(header_pattern(), line))
    } else {
        Err(parse_error("Invalid header regex"@))
    }
}

/// What reading the line `line` as a file of a directory gives.
pub open spec fn parse_file_entry_spec(line: Seq<char>) -> CbmFileEntryView {
    if regex_accepts(file_pattern()) {
        entry_of(line, regex_captures(file_pattern(), line))
    } else {
        CbmFileEntryView::InvalidFile {
            raw_line: line,
            error: "Invalid regex"@,
            partial_blocks: None,
            partial_filename: None,
        }
    }
}

/// What reading the line `line` as the last line of a directory gives.
pub open spec fn parse_blocks_free_spec(line: Seq<char>) -> Result<u16, Rs1541ErrorView> {
    if regex_accepts(blocks_free_pattern()) {
        blocks_free_of(line, regex_captures(blocks_free_pattern(), line))
    } else {
        Err(parse_error("Invalid blocks free regex"@))
    }
}

/// The index of the first line from `from` on that holds the words
/// `blocks free`, or the number of lines where none does.
pub open spec fn free_line(all: Seq<Seq<char>>, from: int) -> int
    decreases all.len() - from,
{
    if from < 0 || from >= all.len() {
        all.len() as int
    } else if contains(all[from], "blocks free"@) {
        from
    } else {
        free_line(all, from + 1)
    }
}

/// A directory: its header, its entries in order, and the free blocks.
#[derive(Debug)]
pub struct CbmDirListing {
    pub header: CbmDiskHeader,
    pub files: Vec<CbmFileEntry>,
    pub blocks_free: u16,
}

/// The mathematical value of a [`CbmDirListing`].
pub struct CbmDirListingView {
    pub header: CbmDiskHeaderView,
    pub files: Seq<CbmFileEntryView>,
    pub blocks_free: u16,
}

/// The values of a sequence of entries.
pub open spec fn entry_views(files: Seq<CbmFileEntry>) -> Seq<CbmFileEntryView> {
    files.map_values(|e: CbmFileEntry| e@)
}

impl View for CbmDirListing {
    type V = CbmDirListingView;

    open spec fn view(&self) -> CbmDirListingView {
        CbmDirListingView {
            header: self.header@,
            files: entry_views(self.files@),
            blocks_free: self.blocks_free,
        }
    }
}

/// What parsing the text `text` of a directory gives.
///
/// The first line must be the header. Of the lines behind it, the first that
/// holds the words `blocks free` gives the free blocks and ends the
/// directory; each line in front of it is an entry, valid or not. Parsing
/// fails where there is no line at all, where the first line is no header,
/// and where the line with the free blocks is missing or cannot be read.
pub open spec fn parse_listing(text: Seq<char>) -> Result<CbmDirListingView, Rs1541ErrorView> {
    let all = lines(text);
    let last = free_line(all, 1);
    if all.len() == 0 {
        Err(parse_error("Missing header line"@))
    } else {
        match parse_header_spec(all[0]) {
            Err(e) => Err(e),
            Ok(header) => if last >= all.len() {
                Err(parse_error("Missing blocks free line"@))
            } else {
                match parse_blocks_free_spec(all[last]) {
                    Err(e) => Err(e),
                    Ok(blocks_free) => Ok(
                        CbmDirListingView {
                            header,
                            files: Seq::new(
                                (last - 1) as nat,
                                |i: int| parse_file_entry_spec(all[i + 1]),
                            ),
                            blocks_free,
                        },
                    ),
                }
            },
        }
    }
}

/// The sum of the blocks of the files among `files`.
pub open spec fn blocks_in_use(files: Seq<CbmFileEntryView>) -> nat
    decreases files.len(),
{
    if files.len() == 0 {
        0
    } else {
        blocks_in_use(files.drop_last()) + files.last().valid_blocks()
    }
}

/// A result of parsing a header, with both sides taken by their values.
pub open spec fn header_view(r: Result<CbmDiskHeader, Rs1541Error>) -> Result<
    CbmDiskHeaderView,
    Rs1541ErrorView,
> {
    match r {
        Ok(header) => Ok(header@),
        Err(e) => Err(e@),
    }
}

/// A result of parsing a directory, with both sides taken by their values.
pub open spec fn listing_view(r: Result<CbmDirListing, Rs1541Error>) -> Result<
    CbmDirListingView,
    Rs1541ErrorView,
> {
    match r {
        Ok(listing) => Ok(listing@),
        Err(e) => Err(e@),
    }
}

/// The text of capture group `index`, or no text where the group is missing.
fn group_chars(groups: &Vec<Option<String>>, index: usize) -> (text: Vec<char>)
    ensures
        text@ == group_text(groups@.map_values(|g: Option<String>| option_text(g)), index as int),
{
    if index < groups.len() {
        match &groups[index] {
            Some(group) => chars_of(group.as_str()),
            None => Vec::new(),
        }
    } else {
        Vec::new()
    }
}

/// A parse error whose text is `prefix` followed by `detail`.
fn parse_failure(prefix: &str, detail: &[char]) -> (e: Rs1541Error)
    ensures
        e@ == parse_error(prefix@ + detail@),
{
    let mut message = String::new();
    message.append(prefix);
    crate::text::push_chars(&mut message, detail);
    Rs1541Error::Parse { message }
}

/// A line that could not be read as a file, for the reason `error`.
fn unreadable(line: &str, error: &str, partial_filename: Option<String>) -> (entry: CbmFileEntry)
    ensures
        entry@ == (CbmFileEntryView::InvalidFile {
            raw_line: line@,
            error: error@,
            partial_blocks: None,
            partial_filename: option_text(partial_filename),
        }),
{
    CbmFileEntry::InvalidFile {
        raw_line: line.to_owned(),
        error: error.to_owned(),
        partial_blocks: None,
        partial_filename,
    }
}

impl CbmDirListing {
    /// Parses the text of a directory.
    pub fn parse(input: &str) -> (r: Result<Self, Rs1541Error>)
        ensures
            listing_view(r) == parse_listing(input@),
    {
        let text = chars_of(input);
        let all = lines_of(text.as_slice());
        proof {
            assert(views(all@).len() == all@.len());
        }
        if all.len() == 0 {
            return Err(parse_failure("Missing header line", Vec::new().as_slice()));
        }
        proof {
            assert(views(all@)[0] == all@[0]@);
        }
        let first = string_of(all[0].as_slice());
        let header = match Self::parse_header(first.as_str()) {
            Ok(header) => header,
            Err(e) => {
                return Err(e);
            },
        };
        let needle = chars_of("blocks free");
        let mut files: Vec<CbmFileEntry> = Vec::new();
        let mut i: usize = 1;
        while i < all.len()
            invariant
                1 <= i <= all.len(),
                views(all@) == lines(input@),
                views(all@).len() == all@.len(),
                parse_header_spec(lines(input@)[0]) == Ok::<CbmDiskHeaderView, Rs1541ErrorView>(
                    header@,
                ),
                needle@ == "blocks free"@,
                free_line(lines(input@), 1) == free_line(lines(input@), i as int),
                files@.len() == i - 1,
                forall|k: int|
                    0 <= k < i - 1 ==> (#[trigger] files@[k])@ == parse_file_entry_spec(
                        lines(input@)[k + 1],
                    ),
            decreases all.len() - i,
        {
            proof {
                assert(views(all@)[i as int] == all@[i as int]@);
            }
            let line = string_of(all[i].as_slice());
            if contains_chars(all[i].as_slice(), needle.as_slice()) {
                proof {
                    assert(free_line(lines(input@), i as int) == i);
                }
                return match Self::parse_blocks_free(line.as_str()) {
                    Ok(blocks_free) => {
                        let listing = CbmDirListing { header, files, blocks_free };
                        proof {
                            assert(listing@.files =~= Seq::new(
                                (i - 1) as nat,
                                |k: int| parse_file_entry_spec(lines(input@)[k + 1]),
                            ));
                        }
                        Ok(listing)
                    },
                    Err(e) => Err(e),
                };
            }
            proof {
                assert(free_line(lines(input@), i as int) == free_line(lines(input@), i + 1));
            }
            files.push(Self::parse_file_entry(line.as_str()));
            i = i + 1;
        }
        proof {
            assert(free_line(lines(input@), i as int) == lines(input@).len());
        }
        Err(parse_failure("Missing blocks free line", Vec::new().as_slice()))
    }

    /// Reads the line `line` as the header of a directory.
    pub fn parse_header(line: &str) -> (r: Result<CbmDiskHeader, Rs1541Error>)
        ensures
            header_view(r) == parse_header_spec(line@),
    {
        match capture_groups("^\\s*(\\d+)\\s+\\.\"([^\"]*)\" ([a-zA-Z0-9]{2})", line) {
            Ok(found) => Self::header_from_captures(line, &found),
            Err(_) => Err(parse_failure("Invalid header regex", Vec::new().as_slice())),
        }
    }

    /// The header that the capture groups `found` of the header pattern give
    /// for the line `line`.
    pub fn header_from_captures(line: &str, found: &Option<Vec<Option<String>>>) -> (r: Result<
        CbmDiskHeader,
        Rs1541Error,
    >)
        ensures
            header_view(r) == header_of(line@, groups_view(*found)),
    {
        match found {
            None => Err(parse_failure("Invalid header format: ", chars_of(line).as_slice())),
            Some(groups) => {
                let number = group_chars(groups, 1);
                match parse_unsigned_chars(number.as_slice(), 255) {
                    None => Err(parse_failure("Invalid drive number: ", number.as_slice())),
                    Some(drive) => Ok(
                        CbmDiskHeader {
                            drive_number: drive as u8,
                            name: string_of(
                                trim_end_chars(group_chars(groups, 2).as_slice()).as_slice(),
                            ),
                            id: string_of(group_chars(groups, 3).as_slice()),
                        },
                    ),
                }
            },
        }
    }

    /// Reads the line `line` as a file of a directory. A line that is no file
    /// gives an invalid entry, never an error.
    pub fn parse_file_entry(line: &str) -> (entry: CbmFileEntry)
        ensures
            entry@ == parse_file_entry_spec(line@),
    {
        match capture_groups("^\\s*(\\d+)\\s+\"([^\"]+)\"\\s+(\\w+)\\s*$", line) {
            Ok(found) => Self::entry_from_captures(line, &found),
            Err(_) => unreadable(line, "Invalid regex", None),
        }
    }

    /// The entry that the capture groups `found` of the file pattern give for
    /// the line `line`.
    pub fn entry_from_captures(line: &str, found: &Option<Vec<Option<String>>>) -> (entry:
        CbmFileEntry)
        ensures
            entry@ == entry_of(line@, groups_view(*found)),
    {
        match found {
            None => unreadable(line, "Could not parse line format", None),
            Some(groups) => {
                let filename = string_of(group_chars(groups, 2).as_slice());
                let number = trim_chars(group_chars(groups, 1).as_slice());
                match parse_unsigned_chars(number.as_slice(), 65535) {
                    None => unreadable(line, "Invalid block count", Some(filename)),
                    Some(blocks) => {
                        let kind = string_of(group_chars(groups, 3).as_slice());
                        CbmFileEntry::ValidFile {
                            blocks: blocks as u16,
                            filename,
                            file_type: CbmFileType::from(kind.as_str()),
                        }
                    },
                }
            },
        }
    }

    /// Reads the line `line` as the last line of a directory.
    pub fn parse_blocks_free(line: &str) -> (r: Result<u16, Rs1541Error>)
        ensures
            crate::error::error_view(r) == parse_blocks_free_spec(line@),
    {
        match capture_groups("^\\s*(\\d+)\\s+blocks free", line) {
            Ok(found) => Self::blocks_free_from_captures(line, &found),
            Err(_) => Err(parse_failure("Invalid blocks free regex", Vec::new().as_slice())),
        }
    }

    /// The number of free blocks that the capture groups `found` of the
    /// pattern for the last line give for the line `line`.
    pub fn blocks_free_from_captures(line: &str, found: &Option<Vec<Option<String>>>) -> (r: Result<
        u16,
        Rs1541Error,
    >)
        ensures
            crate::error::error_view(r) == blocks_free_of(line@, groups_view(*found)),
    {
        match found {
            None => Err(parse_failure("Invalid blocks free format: ", chars_of(line).as_slice())),
            Some(groups) => {
                let number = group_chars(groups, 1);
                match parse_unsigned_chars(number.as_slice(), 65535) {
                    None => Err(parse_failure("Invalid blocks free number: ", number.as_slice())),
                    Some(blocks) => Ok(blocks as u16),
                }
            },
        }
    }

    /// The number of entries of the directory, valid or not.
    pub fn num_files(&self) -> (count: usize)
        ensures
            count == self@.files.len(),
    {
        self.files.len()
    }

    /// The sum of the blocks of the files of the directory, counted in 16
    /// bits: a sum beyond 65535 wraps round.
    pub fn num_blocks_used_valid(&self) -> (blocks: u16)
        ensures
            blocks == blocks_in_use(self@.files) % 65536,
    {
        let mut blocks: u16 = 0;
        let mut i: usize = 0;
        while i < self.files.len()
            invariant
                i <= self.files.len(),
                blocks == blocks_in_use(self@.files.take(i as int)) % 65536,
            decreases self.files.len() - i,
        {
            proof {
                assert(self@.files.take(i + 1).drop_last() == self@.files.take(i as int));
                assert(self@.files.take(i + 1).last() == self.files@[i as int]@);
            }
            let more: u16 = match &self.files[i] {
                CbmFileEntry::ValidFile { blocks, .. } => *blocks,
                CbmFileEntry::InvalidFile { .. } => 0,
            };
            blocks = blocks.wrapping_add(more);
            i = i + 1;
        }
        proof {
            assert(self@.files.take(self.files.len() as int) == self@.files);
        }
        blocks
    }

    /// The blocks in use and the free blocks together, counted in 16 bits.
    pub fn total_blocks(&self) -> (blocks: u16)
        ensures
            blocks == (blocks_in_use(self@.files) + self.blocks_free) % 65536,
    {
        self.num_blocks_used_valid().wrapping_add(self.blocks_free)
    }
}


/// The lines of the entries `files`, each with a newline behind it.
pub open spec fn entry_lines(files: Seq<CbmFileEntryView>) -> Seq<char>
    decreases files.len(),
{
    if files.len() == 0 {
        Seq::empty()
    } else {
        entry_lines(files.drop_last()) + files.last().text() + "\n"@
    }
}

impl CbmDirListingView {
    /// The directory as text: the header, the entries and the free blocks,
    /// each on a line of its own.
    pub open spec fn text(self) -> Seq<char> {
        self.header.text() + "\n"@ + entry_lines(self.files) + "Free blocks: "@ + decimal(
            self.blocks_free as nat,
        ) + "\n"@
    }
}

impl Clone for CbmDirListing {
    fn clone(&self) -> (copy: Self)
        ensures
            copy@ == self@,
    {
        let mut files: Vec<CbmFileEntry> = Vec::new();
        let mut i: usize = 0;
        while i < self.files.len()
            invariant
                i <= self.files.len(),
                files@.len() == i,
                forall|k: int| 0 <= k < i ==> (#[trigger] files@[k])@ == self.files@[k]@,
            decreases self.files.len() - i,
        {
            files.push(self.files[i].clone());
            i = i + 1;
        }
        let copy = CbmDirListing {
            header: self.header.clone(),
            files,
            blocks_free: self.blocks_free,
        };
        proof {
            assert(copy@.files =~= self@.files);
        }
        copy
    }
}

impl CbmDirListing {
    /// The directory as text.
    pub fn to_string(&self) -> (out: String)
        ensures
            out@ == self@.text(),
    {
        let mut out = self.header.to_string();
        out.append("\n");
        let ghost start = out@;
        let mut i: usize = 0;
        proof {
            assert(self@.files.take(0) == Seq::<CbmFileEntryView>::empty());
            assert(start + entry_lines(Seq::empty()) == start);
        }
        while i < self.files.len()
            invariant
                i <= self.files.len(),
                out@ == start + entry_lines(self@.files.take(i as int)),
            decreases self.files.len() - i,
        {
            proof {
                assert(self@.files.take(i + 1).drop_last() == self@.files.take(i as int));
                assert(self@.files.take(i + 1).last() == self.files@[i as int]@);
            }
            out.append(self.files[i].to_string().as_str());
            out.append("\n");
            i = i + 1;
        }
        proof {
            assert(self@.files.take(self.files.len() as int) == self@.files);
        }
        out.append("Free blocks: ");
        push_decimal(&mut out, self.blocks_free as u64);
        out.append("\n");
        out
    }
}

} // verus!
