//! The boundary at which the host loads and unloads a plugin, and the
//! description of the plugin that the host reads.

use vstd::prelude::*;
use vstd::slice::slice_to_vec;
use vstd::string::StringSliceAdditionalSpecFns;

use crate::native::{Address, ThreadId};
use crate::text::same_text;
use crate::weechat::{Args, Runtime, Weechat};

verus! {

/// Status values for Weechat callbacks
#[derive(Debug, PartialEq, Eq, Clone, Copy, Structural)]
pub enum ReturnCode {
    /// The callback returned successfully.
    Success,
    /// The callback returned successfully and the command will not be
    /// executed after the callback.
    OkEat,
    /// The callback returned with an error.
    Error,
}

impl ReturnCode {
    /// The host's number for the status.
    pub open spec fn code(self) -> int {
        match self {
            ReturnCode::Success => 0,
            ReturnCode::OkEat => 1,
            ReturnCode::Error => -1,
        }
    }

    /// Returns the host's number for the status.
    pub fn as_int(&self) -> (v: i32)
        ensures
            v == self.code(),
    {
        match self {
            ReturnCode::Success => 0,
            ReturnCode::OkEat => 1,
            ReturnCode::Error => -1,
        }
    }
}

/// Weechat plugin trait.
///
/// Implement this trait over your struct to implement a Weechat plugin. The
/// init method will get called when Weechat loads the plugin.
pub trait Plugin: Sized {
    /// The initialization method for the plugin.
    fn init(weechat: &Weechat, args: Args) -> Result<Self, ()>;
}

/// What the host is told about the plugin's own initialization: the plugin,
/// if it came up, and the status 0 if it did, -1 if not.
pub fn init_status<P>(result: Result<P, ()>) -> (loaded: (Option<P>, i32))
    ensures
        loaded.0 is Some <==> result is Ok,
        result matches Ok(plugin) ==> loaded.0 == Some(plugin),
        loaded.1 == (if result is Ok {
            ReturnCode::Success.code()
        } else {
            ReturnCode::Error.code()
        }),
{
    match result {
        Ok(plugin) => (Some(plugin), ReturnCode::Success.as_int()),
        Err(_) => (None, ReturnCode::Error.as_int()),
    }
}

/// The host loads the plugin whose native record is at `plugin`, on the
/// thread `current`, with the arguments `argv`. The runtime is set up, then
/// the plugin's own initialization runs. Returns the plugin, if it came up,
/// and the status for the host: 0 if it did, -1 if not.
pub fn weechat_plugin_init<P: Plugin>(
    runtime: &mut Runtime,
    plugin: Address,
    current: ThreadId,
    argv: &Vec<Vec<u8>>,
) -> (loaded: (Option<P>, i32))
    requires
        plugin != 0,
    ensures
        final(runtime).admits(current),
        final(runtime).plugin() == plugin,
        final(runtime).executor_runs(),
        loaded.1 == (if loaded.0 is Some {
            ReturnCode::Success.code()
        } else {
            ReturnCode::Error.code()
        }),
{
    let weechat = Weechat::init_from_ptr(runtime, plugin, current);
    let args = Args::new(argv);
    init_status(P::init(&weechat, args))
}

/// The host unloads the plugin: the plugin is dropped, then the runtime is
/// torn down. Returns the status for the host, which is 0.
pub fn weechat_plugin_end<P: Plugin>(runtime: &mut Runtime, plugin: Option<P>) -> (status: i32)
    ensures
        status == ReturnCode::Success.code(),
        !final(runtime).is_initialized(),
        !final(runtime).executor_runs(),
        final(runtime).owner() == old(runtime).owner(),
{
    let _ = plugin;
    Weechat::free(runtime);
    ReturnCode::Success.as_int()
}

/// What a line of the description of a plugin is about.
#[derive(Debug, PartialEq, Eq, Clone, Copy, Structural)]
pub enum VariableKind {
    Name,
    Author,
    Description,
    Version,
    License,
}

impl VariableKind {
    /// The kind that a key in lower case stands for.
    pub open spec fn of_key(lower: Seq<char>) -> Option<VariableKind> {
        if lower == "name"@ {
            Some(VariableKind::Name)
        } else if lower == "author"@ {
            Some(VariableKind::Author)
        } else if lower == "description"@ {
            Some(VariableKind::Description)
        } else if lower == "version"@ {
            Some(VariableKind::Version)
        } else if lower == "license"@ {
            Some(VariableKind::License)
        } else {
            None
        }
    }
}

/// One line of the description of a plugin: what it is about, and its
/// value.
pub struct WeechatVariable {
    pub kind: VariableKind,
    pub value: String,
}

/// `text` in lower case, as `str::to_lowercase` writes it.
pub uninterp spec fn lowercased(text: Seq<char>) -> Seq<char>;

/// Calls `str::to_lowercase`.
///
/// Trusted: the result depends on the text alone.
#[verifier::external_body]
fn to_lowercase(text: &str) -> (lower: String)
    ensures
        lower@ == lowercased(text@),
{
    text.to_lowercase()
}

/// A string with the zero byte that ends it for the host, and its length
/// with that byte.
pub open spec fn is_pair(pair: (usize, Vec<u8>), text: Seq<char>) -> bool {
    pair.1@ == vstd::utf8::encode_utf8(text).push(0u8) && pair.0 == pair.1@.len()
}

impl WeechatVariable {
    /// The bytes of `string` with a zero byte behind them, since this goes
    /// to the C side, and how many bytes that makes.
    pub fn to_pair(string: &str) -> (pair: (usize, Vec<u8>))
        ensures
            is_pair(pair, string@),
    {
        let mut bytes = slice_to_vec(string.as_bytes());
        bytes.push(0);
        (bytes.len(), bytes)
    }

    /// The value of the line as the host reads it.
    pub fn as_pair(&self) -> (pair: (usize, Vec<u8>))
        ensures
            is_pair(pair, self.value@),
    {
        Self::to_pair(self.value.as_str())
    }

    /// What the host reads where the description has no line: the empty
    /// string.
    pub fn default_literal() -> (pair: (usize, Vec<u8>))
        ensures
            pair.0 == 1,
            pair.1@ == seq![0u8],
    {
        let mut bytes: Vec<u8> = Vec::new();
        bytes.push(0);
        (bytes.len(), bytes)
    }

    /// The value of the line.
    pub fn value(&self) -> (value: String)
        ensures
            value@ == self.value@,
    {
        self.value.clone()
    }

    /// Reads a line from its key in lower case and its value.
    pub fn from_lower_key(
        lower: &str,
        value: String,
    ) -> (line: Result<WeechatVariable, &'static str>)
        ensures
            line is Ok <==> VariableKind::of_key(lower@) is Some,
            line matches Ok(variable) ==> (
                Some(variable.kind) == VariableKind::of_key(lower@)
                && variable.value@ == value@
            ),
            line matches Err(message) ==> message@
                == "expected one of name, author, description, version or license"@,
    {
        let kind = if same_text(lower, "name") {
            VariableKind::Name
        } else if same_text(lower, "author") {
            VariableKind::Author
        } else if same_text(lower, "description") {
            VariableKind::Description
        } else if same_text(lower, "version") {
            VariableKind::Version
        } else if same_text(lower, "license") {
            VariableKind::License
        } else {
            return Err("expected one of name, author, description, version or license");
        };
        Ok(WeechatVariable { kind, value })
    }

    /// Reads a line from its key and its value. The case of the key does
    /// not matter.
    pub fn parse(key: &str, value: String) -> (line: Result<WeechatVariable, &'static str>)
        ensures
            line is Ok <==> VariableKind::of_key(lowercased(key@)) is Some,
            line matches Ok(variable) ==> (
                Some(variable.kind) == VariableKind::of_key(lowercased(key@))
                && variable.value@ == value@
            ),
            line matches Err(message) ==> message@
                == "expected one of name, author, description, version or license"@,
    {
        let lower = to_lowercase(key);
        Self::from_lower_key(lower.as_str(), value)
    }
}

/// The value of the last line about `kind`, if there is such a line.
pub open spec fn last_of(lines: Seq<WeechatVariable>, kind: VariableKind) -> Option<Seq<char>>
    decreases lines.len(),
{
    if lines.len() == 0 {
        None
    } else if lines.last().kind == kind {
        Some(lines.last().value@)
    } else {
        last_of(lines.drop_last(), kind)
    }
}

/// What the host reads for `kind`: the value of the last line about it, or
/// the empty string.
pub open spec fn stated(lines: Seq<WeechatVariable>, kind: VariableKind) -> Seq<char> {
    match last_of(lines, kind) {
        Some(value) => value,
        None => Seq::<char>::empty(),
    }
}

/// The description of a plugin as the host reads it.
pub struct WeechatPluginInfo {
    pub plugin: String,
    pub name: (usize, Vec<u8>, String),
    pub author: (usize, Vec<u8>),
    pub description: (usize, Vec<u8>),
    pub version: (usize, Vec<u8>),
    pub license: (usize, Vec<u8>),
}

/// Finds the value of the last line about `kind`.
fn find_last(lines: &Vec<WeechatVariable>, kind: VariableKind) -> (found: Option<usize>)
    ensures
        found is Some <==> last_of(lines@, kind) is Some,
        found matches Some(i) ==> (
            i < lines@.len()
            && Some(lines@[i as int].value@) == last_of(lines@, kind)
        ),
{
    let mut i: usize = lines.len();
    proof {
        assert(lines@.take(i as int) =~= lines@);
    }
    while i > 0
        invariant
            0 <= i <= lines@.len(),
            last_of(lines@, kind) == last_of(lines@.take(i as int), kind),
        decreases i,
    {
        proof {
            assert(lines@.take(i as int).drop_last() =~= lines@.take(i - 1));
        }
        if lines[i - 1].kind == kind {
            return Some(i - 1);
        }
        i -= 1;
    }
    proof {
        assert(lines@.take(0).len() == 0);
    }
    None
}

/// What the host reads for `kind`.
fn pair_of(lines: &Vec<WeechatVariable>, kind: VariableKind) -> (pair: (usize, Vec<u8>))
    ensures
        is_pair(pair, stated(lines@, kind)),
{
    match find_last(lines, kind) {
        Some(i) => lines[i].as_pair(),
        None => {
            proof {
                reveal_strlit("");
                assert(""@ =~= Seq::<char>::empty());
            }
            WeechatVariable::to_pair("")
        },
    }
}

impl WeechatPluginInfo {
    /// Puts the description of the plugin `plugin` together from its lines.
    /// Where two lines are about the same thing the later one counts; a
    /// description without a name is refused.
    pub fn parse(
        plugin: String,
        lines: &Vec<WeechatVariable>,
    ) -> (info: Result<WeechatPluginInfo, &'static str>)
        ensures
            info is Ok <==> last_of(lines@, VariableKind::Name) is Some,
            info matches Ok(i) ==> (
                i.plugin@ == plugin@
                && is_pair((i.name.0, i.name.1), stated(lines@, VariableKind::Name))
                && i.name.2@ == stated(lines@, VariableKind::Name)
                && is_pair(i.author, stated(lines@, VariableKind::Author))
                && is_pair(i.description, stated(lines@, VariableKind::Description))
                && is_pair(i.version, stated(lines@, VariableKind::Version))
                && is_pair(i.license, stated(lines@, VariableKind::License))
            ),
            info matches Err(message) ==> message@ == "the name of the plugin needs to be defined"@,
    {
        let name = match find_last(lines, VariableKind::Name) {
            Some(i) => {
                let (length, bytes) = lines[i].as_pair();
                (length, bytes, lines[i].value())
            },
            None => {
                return Err("the name of the plugin needs to be defined");
            },
        };
        Ok(
            WeechatPluginInfo {
                plugin,
                name,
                author: pair_of(lines, VariableKind::Author),
                description: pair_of(lines, VariableKind::Description),
                version: pair_of(lines, VariableKind::Version),
                license: pair_of(lines, VariableKind::License),
            },
        )
    }
}

} // verus!
