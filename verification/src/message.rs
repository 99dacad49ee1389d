//! The message record: an immutable-after-construction carrier of a version,
//! two optional short names (origin and remote), a time-to-live, the option
//! bits and a payload.
//!
//! Names travel on the wire as plain byte strings of at most 255 bytes, so the
//! record stores them as bytes; an empty byte string stands for an absent
//! name, exactly as a zero length byte does in the frame.

use vstd::prelude::*;
use vstd::string::StrSliceExecFns;

use crate::options::OctopipesOptions;
use crate::OctopipesProtocolVersion;

verus! {

/// The mathematical content of a message: what the codec reads and writes.
/// The version is not part of the view; only one version exists.
#[verifier::ext_equal]
pub struct MessageView {
    /// The origin name as bytes; empty means absent.
    pub origin: Seq<u8>,
    /// The remote (recipient) name as bytes; empty means absent.
    pub remote: Seq<u8>,
    /// Per-write timeout hint in seconds.
    pub ttl: u8,
    /// The option byte.
    pub options: u8,
    /// The payload.
    pub data: Seq<u8>,
}

/// A data message.
pub struct OctopipesMessage {
    version: OctopipesProtocolVersion,
    origin: Vec<u8>,
    remote: Vec<u8>,
    ttl: u8,
    options: OctopipesOptions,
    data: Vec<u8>,
}

impl View for OctopipesMessage {
    type V = MessageView;

    closed spec fn view(&self) -> MessageView {
        MessageView {
            origin: self.origin@,
            remote: self.remote@,
            ttl: self.ttl,
            options: self.options@,
            data: self.data@,
        }
    }
}

/// The characters that a byte string reads as: each byte taken as one
/// character, as the decoder does.
pub open spec fn bytes_as_chars(b: Seq<u8>) -> Seq<char> {
    b.map_values(|x: u8| x as char)
}

/// The bytes that a character string is written as: its UTF-8 encoding, which
/// for ASCII text is one byte per character.
pub open spec fn chars_as_bytes(s: Seq<char>) -> Seq<u8> {
    vstd::utf8::encode_utf8(s)
}

/// The byte string that an optional name is carried as: absent means empty.
pub open spec fn opt_name_bytes(name: &Option<String>) -> Seq<u8> {
    match name {
        Some(s) => chars_as_bytes(s@),
        None => Seq::<u8>::empty(),
    }
}

/// Turns a byte string into the character string it reads as.
pub fn bytes_to_string(b: &Vec<u8>) -> (r: String)
    ensures
        r@ == bytes_as_chars(b@),
{
    let mut s = String::new();
    let mut i: usize = 0;
    while i < b.len()
        invariant
            i <= b.len(),
            s@ == bytes_as_chars(b@.take(i as int)),
        decreases b.len() - i,
    {
        proof {
            assert(bytes_as_chars(b@.take(i + 1 as int)) == bytes_as_chars(b@.take(i as int)).push(
                b@[i as int] as char,
            )) by {
                assert(bytes_as_chars(b@.take(i + 1 as int)) =~= bytes_as_chars(
                    b@.take(i as int),
                ).push(b@[i as int] as char));
            }
        }
        push_char(&mut s, b[i] as char);
        i = i + 1;
    }
    proof {
        assert(b@.take(b@.len() as int) =~= b@);
    }
    s
}

/// Relies on String::push: appends the given character to the end of the
/// string.
#[verifier::external_body]
fn push_char(s: &mut String, c: char)
    ensures
        final(s)@ == old(s)@.push(c),
{
    s.push(c)
}

/// Turns a character string into the bytes it is written as.
pub fn string_to_bytes(s: &str) -> (r: Vec<u8>)
    ensures
        r@ == chars_as_bytes(s@),
{
    s.as_bytes_vec()
}

/// Copies a byte vector.
pub fn clone_bytes(v: &Vec<u8>) -> (r: Vec<u8>)
    ensures
        r@ == v@,
{
    let mut out: Vec<u8> = Vec::new();
    let mut i: usize = 0;
    while i < v.len()
        invariant
            i <= v@.len(),
            out@ == v@.take(i as int),
        decreases v@.len() - i,
    {
        out.push(v[i]);
        assert(out@ =~= v@.take(i + 1));
        i = i + 1;
    }
    proof {
        assert(v@.take(v@.len() as int) =~= v@);
    }
    out
}

impl OctopipesMessage {
    /// Builds a message from its parts; names are given as character strings
    /// and stored as their bytes, with `None` stored as the empty byte string.
    pub fn new(
        version: &OctopipesProtocolVersion,
        origin: &Option<String>,
        remote: &Option<String>,
        ttl: u8,
        options: OctopipesOptions,
        data: Vec<u8>,
    ) -> (r: OctopipesMessage)
        ensures
            r@.origin == opt_name_bytes(origin),
            r@.remote == opt_name_bytes(remote),
            r@.ttl == ttl,
            r@.options == options@,
            r@.data == data@,
            r.spec_version() == *version,
    {
        let origin_bytes: Vec<u8> = match origin {
            Some(s) => string_to_bytes(s.as_str()),
            None => Vec::new(),
        };
        let remote_bytes: Vec<u8> = match remote {
            Some(s) => string_to_bytes(s.as_str()),
            None => Vec::new(),
        };
        OctopipesMessage {
            version: *version,
            origin: origin_bytes,
            remote: remote_bytes,
            ttl,
            options,
            data,
        }
    }

    /// Builds a message directly from byte strings, as the decoder produces
    /// them.
    pub fn from_bytes(
        version: OctopipesProtocolVersion,
        origin: Vec<u8>,
        remote: Vec<u8>,
        ttl: u8,
        options: OctopipesOptions,
        data: Vec<u8>,
    ) -> (r: OctopipesMessage)
        ensures
            r@ == (MessageView {
                origin: origin@,
                remote: remote@,
                ttl,
                options: options@,
                data: data@,
            }),
            r.spec_version() == version,
    {
        OctopipesMessage { version, origin, remote, ttl, options, data }
    }

    /// Whether any of the given option bits is set on this message.
    pub fn isset_option(&self, option: OctopipesOptions) -> (r: bool)
        ensures
            r == ((self@.options & option@) != 0),
    {
        self.options.intersects(option)
    }

    /// The protocol version of the message.
    pub fn get_version(&self) -> (r: OctopipesProtocolVersion)
        ensures
            r == self.spec_version(),
    {
        self.version
    }

    /// The protocol version of the message.
    pub closed spec fn spec_version(&self) -> OctopipesProtocolVersion {
        self.version
    }

    /// The option set of the message.
    pub fn get_options(&self) -> (r: OctopipesOptions)
        ensures
            r@ == self@.options,
    {
        self.options
    }

    /// The time-to-live of the message, in seconds.
    pub fn get_ttl(&self) -> (r: u8)
        ensures
            r == self@.ttl,
    {
        self.ttl
    }

    /// The origin name as a character string, or `None` when absent.
    pub fn get_origin(&self) -> (r: Option<String>)
        ensures
            r matches Some(s) ==> self@.origin.len() > 0 && s@ == bytes_as_chars(self@.origin),
            r is None <==> self@.origin.len() == 0,
    {
        if self.origin.len() > 0 {
            Some(bytes_to_string(&self.origin))
        } else {
            None
        }
    }

    /// The remote name as a character string, or `None` when absent.
    pub fn get_remote(&self) -> (r: Option<String>)
        ensures
            r matches Some(s) ==> self@.remote.len() > 0 && s@ == bytes_as_chars(self@.remote),
            r is None <==> self@.remote.len() == 0,
    {
        if self.remote.len() > 0 {
            Some(bytes_to_string(&self.remote))
        } else {
            None
        }
    }

    /// The origin name as bytes; empty means absent.
    pub fn get_origin_bytes(&self) -> (r: &Vec<u8>)
        ensures
            r@ == self@.origin,
    {
        &self.origin
    }

    /// The remote name as bytes; empty means absent.
    pub fn get_remote_bytes(&self) -> (r: &Vec<u8>)
        ensures
            r@ == self@.remote,
    {
        &self.remote
    }

    /// The payload of the message.
    pub fn get_data(&self) -> (r: &Vec<u8>)
        ensures
            r@ == self@.data,
    {
        &self.data
    }
}

} // verus!
