//! The key pair of the Scabbard administrator.
//!
//! A key is kept in two files named after it, one for each half of the pair,
//! and is the first line of its file. The caller looks the files up and
//! reads them; this module decides what the outcome is.

use vstd::prelude::*;
use vstd::string::*;

verus! {

/// Directory that holds the key files, with the separator that ends it.
pub const KEY_DIRECTORY: &'static str = "/etc/grid/keys/";

/// Ending of the name of a private key file.
pub const PRIVATE_KEY_EXTENSION: &'static str = ".priv";

/// Ending of the name of a public key file.
pub const PUBLIC_KEY_EXTENSION: &'static str = ".pub";

/// Start of the message for a private key file that does not exist.
pub const NO_PRIVATE_KEY_FILE: &'static str = "No such private key file: ";

/// Start of the message for a public key file that does not exist.
pub const NO_PUBLIC_KEY_FILE: &'static str = "No such public key file: ";

/// Start of the message for a key file without a key on its first line.
pub const EMPTY_KEY_FILE: &'static str = "Empty key file: ";

/// A key pair, both halves as hexadecimal text.
#[derive(Debug, Clone, PartialEq, Eq)]
pub struct Keys {
    pub public_key: String,
    pub private_key: String,
}

impl Keys {
    /// A pair of the two given halves.
    pub fn new(public_key: String, private_key: String) -> (keys: Self)
        ensures
            keys.public_key == public_key,
            keys.private_key == private_key,
    {
        Self { public_key, private_key }
    }
}

/// Why no key pair could be loaded; the text is meant for the operator.
#[derive(Debug, Clone, PartialEq, Eq)]
pub struct KeyError(pub String);

/// What reading a key file gave.
#[derive(Debug, Clone, PartialEq, Eq)]
pub enum KeyFile {
    /// The file could not be read; the text says why.
    Unreadable(String),
    /// All of the file's text.
    Contents(String),
}

/// Name of the file that holds the private half of the key `key_name`.
pub open spec fn private_key_filename_of(key_name: Seq<char>) -> Seq<char> {
    KEY_DIRECTORY@ + key_name + PRIVATE_KEY_EXTENSION@
}

/// Name of the file that holds the public half of the key `key_name`.
pub open spec fn public_key_filename_of(key_name: Seq<char>) -> Seq<char> {
    KEY_DIRECTORY@ + key_name + PUBLIC_KEY_EXTENSION@
}

/// Whether `end` is where the first line of `text` ends: no line feed comes
/// before it, and one stands there unless the text is over.
pub open spec fn is_first_line_end(text: Seq<char>, end: int) -> bool {
    &&& 0 <= end <= text.len()
    &&& forall|i: int| 0 <= i < end ==> text[i] != '\n'
    &&& end < text.len() ==> text[end] == '\n'
}

/// Where the first line of `text` ends.
pub open spec fn first_line_end(text: Seq<char>) -> int {
    choose|end: int| is_first_line_end(text, end)
}

/// The first line of `text` without its line ending, which is a line feed,
/// alone or after a carriage return. A last line needs no line ending, and
/// then keeps a carriage return that it ends in.
pub open spec fn first_line(text: Seq<char>) -> Seq<char> {
    let end = first_line_end(text);
    if 0 < end < text.len() && text[end - 1] == '\r' {
        text.take(end - 1)
    } else {
        text.take(end)
    }
}

/// The first line of a text ends in exactly one place.
pub proof fn lemma_first_line_end_unique(text: Seq<char>, end: int)
    requires
        is_first_line_end(text, end),
    ensures
        first_line_end(text) == end,
{
    let chosen = first_line_end(text);
    assert(is_first_line_end(text, chosen));
    if chosen < end {
        assert(text[chosen] != '\n');
    }
    if end < chosen {
        assert(text[end] != '\n');
    }
}

/// The key that a file with the text `contents` holds, or the message of
/// the error: the key is the first line, and must not be empty.
pub open spec fn key_in(filename: Seq<char>, contents: Seq<char>) -> Result<Seq<char>, Seq<char>> {
    if first_line(contents).len() == 0 {
        Err(EMPTY_KEY_FILE@ + filename)
    } else {
        Ok(first_line(contents))
    }
}

/// The key that the file `filename` yields, or the message of the error.
pub open spec fn key_of(filename: Seq<char>, file: KeyFile) -> Result<Seq<char>, Seq<char>> {
    match file {
        KeyFile::Unreadable(reason) => Err(reason@),
        KeyFile::Contents(contents) => key_in(filename, contents@),
    }
}

/// The outcome of loading the key `key_name` from its two files, each
/// `None` where it does not exist: the public and the private half, in this
/// order, or the message of the first error. Both files must exist, the
/// private one is looked for first; then both must yield a key, the private
/// one is read first.
pub open spec fn loaded_keys(
    key_name: Seq<char>,
    private_file: Option<KeyFile>,
    public_file: Option<KeyFile>,
) -> Result<(Seq<char>, Seq<char>), Seq<char>> {
    match (private_file, public_file) {
        (None, _) => Err(NO_PRIVATE_KEY_FILE@ + private_key_filename_of(key_name)),
        (Some(_), None) => Err(NO_PUBLIC_KEY_FILE@ + public_key_filename_of(key_name)),
        (Some(private_read), Some(public_read)) => match key_of(
            private_key_filename_of(key_name),
            private_read,
        ) {
            Err(message) => Err(message),
            Ok(private_key) => match key_of(public_key_filename_of(key_name), public_read) {
                Err(message) => Err(message),
                Ok(public_key) => Ok((public_key, private_key)),
            },
        },
    }
}

/// Name of the file that holds the private half of the key `key_name`.
pub fn private_key_filename(key_name: &str) -> (filename: String)
    ensures
        filename@ == private_key_filename_of(key_name@),
{
    String::from_str(KEY_DIRECTORY).concat(key_name).concat(PRIVATE_KEY_EXTENSION)
}

/// Name of the file that holds the public half of the key `key_name`.
pub fn public_key_filename(key_name: &str) -> (filename: String)
    ensures
        filename@ == public_key_filename_of(key_name@),
{
    String::from_str(KEY_DIRECTORY).concat(key_name).concat(PUBLIC_KEY_EXTENSION)
}

/// Number of characters before the first line feed of `text`, or in all of
/// it where it has none.
fn find_first_line_end(text: &str) -> (end: usize)
    ensures
        end == first_line_end(text@),
        is_first_line_end(text@, end as int),
{
    let length = text.unicode_len();
    let mut end: usize = 0;
    let mut found = false;
    for c in chars: text.chars()
        invariant
            chars.seq() == text@,
            text@.len() == length,
            !found ==> end == chars.index(),
            found ==> end < text@.len() && text@[end as int] == '\n',
            end <= text@.len(),
            forall|i: int| 0 <= i < end ==> text@[i] != '\n',
    {
        if !found {
            if c == '\n' {
                found = true;
            } else {
                end += 1;
            }
        }
    }
    proof {
        lemma_first_line_end_unique(text@, end as int);
    }
    end
}

/// Takes the key out of the text of the key file `filename`: its first
/// line. A file without a key there is an error that names the file.
pub fn read_key_from_file(filename: &str, contents: &str) -> (result: Result<String, KeyError>)
    ensures
        match result {
            Ok(key) => key_in(filename@, contents@) == Ok::<Seq<char>, Seq<char>>(key@),
            Err(error) => key_in(filename@, contents@) == Err::<Seq<char>, Seq<char>>(error.0@),
        },
{
    let end = find_first_line_end(contents);
    let length = contents.unicode_len();
    let stop = if 0 < end && end < length && contents.get_char(end - 1) == '\r' {
        end - 1
    } else {
        end
    };
    if stop == 0 {
        assert(first_line(contents@).len() == 0);
        Err(KeyError(String::from_str(EMPTY_KEY_FILE).concat(filename)))
    } else {
        let line = contents.substring_char(0, stop);
        assert(line@ == first_line(contents@));
        Ok(String::from_str(line))
    }
}

/// Takes the key out of what reading the key file `filename` gave.
pub fn key_from_file(filename: &str, file: KeyFile) -> (result: Result<String, KeyError>)
    ensures
        match result {
            Ok(key) => key_of(filename@, file) == Ok::<Seq<char>, Seq<char>>(key@),
            Err(error) => key_of(filename@, file) == Err::<Seq<char>, Seq<char>>(error.0@),
        },
{
    match file {
        KeyFile::Unreadable(reason) => Err(KeyError(reason)),
        KeyFile::Contents(contents) => read_key_from_file(filename, contents.as_str()),
    }
}

/// Loads the key pair called `key_name` from what reading its two files
/// gave, `private_key_filename(key_name)` and
/// `public_key_filename(key_name)`; `None` stands for a file that does not
/// exist.
///
/// Both files must exist, and the first line of each is the key. The
/// private key file is looked at first, both times.
pub fn load_scabbard_admin_keys(
    key_name: &str,
    private_file: Option<KeyFile>,
    public_file: Option<KeyFile>,
) -> (result: Result<Keys, KeyError>)
    ensures
        match result {
            Ok(keys) => loaded_keys(key_name@, private_file, public_file) == Ok::<
                (Seq<char>, Seq<char>),
                Seq<char>,
            >((keys.public_key@, keys.private_key@)),
            Err(error) => loaded_keys(key_name@, private_file, public_file) == Err::<
                (Seq<char>, Seq<char>),
                Seq<char>,
            >(error.0@),
        },
{
    let private_key_filename = private_key_filename(key_name);
    let public_key_filename = public_key_filename(key_name);
    let private_read = match private_file {
        Some(read) => read,
        None => {
            return Err(
                KeyError(
                    String::from_str(NO_PRIVATE_KEY_FILE).concat(private_key_filename.as_str()),
                ),
            );
        },
    };
    let public_read = match public_file {
        Some(read) => read,
        None => {
            return Err(
                KeyError(String::from_str(NO_PUBLIC_KEY_FILE).concat(public_key_filename.as_str())),
            );
        },
    };
    let private_key = match key_from_file(private_key_filename.as_str(), private_read) {
        Ok(key) => key,
        Err(error) => {
            return Err(error);
        },
    };
    let public_key = match key_from_file(public_key_filename.as_str(), public_read) {
        Ok(key) => key,
        Err(error) => {
            return Err(error);
        },
    };
    Ok(Keys::new(public_key, private_key))
}

} // verus!
