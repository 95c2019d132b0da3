//! The terminal session with a Netgear modem: how a command is framed,
//! when a reply is complete, and what the reply to `ATI` tells.

use vstd::prelude::*;
use vstd::string::StringExecFns;
use crate::text::{
    contains, ends_with, find_from, lemma_find_in_range, split_on, str_contains, str_ends_with,
    str_find, str_split, trim, trim_chars, views, CharClass,
};

verus! {

/// The port on which the modem serves its terminal.
pub const NETGEAR_TELNET_PORT: u16 = 5510;

/// The size of the buffer that the connection reads into.
pub const TELNET_BUFFER_SIZE: usize = 128;

/// What the modem says of itself.
#[derive(Clone, Debug, PartialEq, Eq)]
pub struct ModemInfo {
    pub manufacturer: String,
    pub model: String,
    pub revision: String,
}

/// A description with its texts as sequences of characters.
pub struct ModemInfoView {
    pub manufacturer: Seq<char>,
    pub model: Seq<char>,
    pub revision: Seq<char>,
}

impl View for ModemInfo {
    type V = ModemInfoView;

    open spec fn view(&self) -> ModemInfoView {
        ModemInfoView {
            manufacturer: self.manufacturer@,
            model: self.model@,
            revision: self.revision@,
        }
    }
}

impl ModemInfo {
    /// Nothing known.
    pub fn default() -> (r: Self)
        ensures
            r@ == blank_info(),
    {
        ModemInfo { manufacturer: String::new(), model: String::new(), revision: String::new() }
    }
}

/// The description that tells nothing.
pub open spec fn blank_info() -> ModemInfoView {
    ModemInfoView {
        manufacturer: Seq::<char>::empty(),
        model: Seq::<char>::empty(),
        revision: Seq::<char>::empty(),
    }
}

/// A command as it goes over the line: followed by a carriage return.
pub fn command_line(cmd: &str) -> (r: String)
    ensures
        r@ == cmd@ + "\r"@,
{
    String::from_str(cmd).concat("\r")
}

/// What reading from the connection can give.
#[derive(Clone, Debug, PartialEq, Eq)]
pub enum TelnetEvent {
    /// A piece of the reply.
    Data(String),
    /// Nothing to read at the moment.
    NoData,
    /// Anything else that the protocol knows.
    Other,
    /// The connection failed.
    Failed,
}

/// Whether reading goes on after `event`: it ends with a piece that
/// closes the reply with `OK` on a line of its own, where there is
/// nothing to read, and where the connection failed.
pub open spec fn reads_on(event: TelnetEvent) -> bool {
    match event {
        TelnetEvent::Data(piece) => !ends_with(piece@, "\r\nOK\r\n"@),
        TelnetEvent::NoData => false,
        TelnetEvent::Other => true,
        TelnetEvent::Failed => false,
    }
}

/// The reply after `event`: a piece is added at the end.
pub open spec fn reply_after(reply: Seq<char>, event: TelnetEvent) -> Seq<char> {
    match event {
        TelnetEvent::Data(piece) => reply + piece@,
        _ => reply,
    }
}

/// Takes what was read into the reply and tells whether to read on.
pub fn take_event(reply: &mut String, event: &TelnetEvent) -> (more: bool)
    ensures
        more == reads_on(*event),
        final(reply)@ == reply_after(old(reply)@, *event),
{
    match event {
        TelnetEvent::Data(piece) => {
            reply.append(piece.as_str());
            !str_ends_with(piece.as_str(), "\r\nOK\r\n")
        },
        TelnetEvent::NoData => false,
        TelnetEvent::Other => true,
        TelnetEvent::Failed => false,
    }
}

/// The lines of a reply: what stands between its line ends, each a
/// carriage return and a line feed.
pub fn reply_lines(reply: &str) -> (r: Vec<String>)
    ensures
        views(r@) == split_on(reply@, "\r\n"@),
{
    proof {
        reveal_strlit("\r\n");
    }
    str_split(reply, "\r\n")
}

/// What a line gives after its first colon, without the white space
/// around it; nothing for a line without a colon.
pub open spec fn value_of(line: Seq<char>) -> Seq<char> {
    match find_from(line, ":"@, 0) {
        Some(i) => trim(line.skip(i + 1), CharClass::Whitespace),
        None => Seq::<char>::empty(),
    }
}

/// What a line gives after its first colon.
pub fn line_value(line: &str) -> (r: String)
    ensures
        r@ == value_of(line@),
{
    proof {
        reveal_strlit(":");
        lemma_find_in_range(line@, ":"@, 0);
    }
    match str_find(line, ":") {
        Some(i) => {
            let n: usize = line.unicode_len();
            let rest = line.substring_char(i + 1, n);
            assert(rest@ == line@.skip(i + 1));
            trim_chars(rest, CharClass::Whitespace)
        },
        None => String::new(),
    }
}

/// What is known after one more line of the reply to `ATI`: a line that
/// names the revision, the model or the manufacturer brings its value,
/// and the first of these names that it holds decides.
pub open spec fn info_after(info: ModemInfoView, line: Seq<char>) -> ModemInfoView {
    if contains(line, "Revision"@) {
        ModemInfoView { revision: value_of(line), ..info }
    } else if contains(line, "Model"@) {
        ModemInfoView { model: value_of(line), ..info }
    } else if contains(line, "Manufacturer"@) {
        ModemInfoView { manufacturer: value_of(line), ..info }
    } else {
        info
    }
}

/// What the reply to `ATI` tells, line by line; a later line overrides
/// an earlier one.
pub open spec fn info_of(lines: Seq<Seq<char>>) -> ModemInfoView
    decreases lines.len(),
{
    if lines.len() == 0 {
        blank_info()
    } else {
        info_after(info_of(lines.drop_last()), lines.last())
    }
}

/// Reads the modem's description from the lines of its reply to `ATI`.
pub fn parse_ati(lines: &Vec<String>) -> (data: ModemInfo)
    ensures
        data@ == info_of(views(lines@)),
{
    let mut data = ModemInfo::default();
    let mut k: usize = 0;
    assert(views(lines@).take(0) =~= Seq::<Seq<char>>::empty());
    while k < lines.len()
        invariant
            k <= lines.len(),
            data@ == info_of(views(lines@).take(k as int)),
        decreases lines.len() - k,
    {
        let line = lines[k].as_str();
        proof {
            let next = views(lines@).take(k + 1);
            assert(next.drop_last() == views(lines@).take(k as int));
            assert(next.last() == line@);
        }
        if str_contains(line, "Revision") {
            data.revision = line_value(line);
        } else if str_contains(line, "Model") {
            data.model = line_value(line);
        } else if str_contains(line, "Manufacturer") {
            data.manufacturer = line_value(line);
        }
        k = k + 1;
    }
    assert(views(lines@).take(k as int) == views(lines@));
    data
}

} // verus!
