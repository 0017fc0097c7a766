use vstd::arithmetic::div_mod::lemma_fundamental_div_mod;
use vstd::prelude::*;
use vstd::utf8::decode_utf8;
use vstd::utf8::encode_utf8;
use vstd::utf8::encode_utf8_decode_utf8;
use vstd::utf8::encode_utf8_valid_utf8;
use vstd::utf8::valid_utf8;

use crate::path::join_path;
use crate::path::path_join;

verus! {

/// Largest value of a two-byte length field.
pub const MAX_FIELD: usize = 65535;

/// Why a sidecar could not be decoded or encoded.
#[derive(Clone, Copy, Debug, PartialEq, Eq, Structural)]
pub enum MetadataError {
    /// The buffer ends before a field that its headers announce.
    Truncated,
    /// The total length disagrees with the buffer, or bytes follow the last field.
    LengthMismatch,
    /// The plugin name is empty.
    EmptyName,
    /// The name or the file name is not well-formed UTF-8.
    InvalidUtf8,
    /// The fields do not fit the two-byte lengths of the format.
    TooLong,
}

impl MetadataError {
    /// The diagnostic for this error on the sidecar at `path`.
    pub fn describe(&self, path: &str) -> (r: String)
        ensures
            r@ == "invalid metadata: "@ + path@,
    {
        crate::text::concat("invalid metadata: ", path)
    }
}

/// The little-endian two-byte value at position `i` of `b`.
pub open spec fn u16_at(b: Seq<u8>, i: int) -> int {
    b[i] as int + 256 * (b[i + 1] as int)
}

/// The little-endian two-byte encoding of `x`.
pub open spec fn u16_bytes(x: int) -> Seq<u8> {
    seq![(x % 256) as u8, (x / 256) as u8]
}

/// What a sidecar buffer decodes to: the plugin name and the shared object's file name.
pub open spec fn decode_sidecar(b: Seq<u8>) -> Result<(Seq<char>, Seq<char>), MetadataError> {
    let len = b.len() as int;
    if len < 2 {
        Err(MetadataError::Truncated)
    } else if u16_at(b, 0) != len {
        Err(MetadataError::LengthMismatch)
    } else if len < 4 {
        Err(MetadataError::Truncated)
    } else {
        let name_len = u16_at(b, 2);
        if len < 6 + name_len {
            Err(MetadataError::Truncated)
        } else if name_len == 0 {
            Err(MetadataError::EmptyName)
        } else {
            let file_len = u16_at(b, 4 + name_len);
            if len < 6 + name_len + file_len {
                Err(MetadataError::Truncated)
            } else if len > 6 + name_len + file_len {
                Err(MetadataError::LengthMismatch)
            } else {
                let name_bytes = b.subrange(4, 4 + name_len);
                let file_bytes = b.subrange(6 + name_len, len);
                if !valid_utf8(name_bytes) || !valid_utf8(file_bytes) {
                    Err(MetadataError::InvalidUtf8)
                } else {
                    Ok((decode_utf8(name_bytes), decode_utf8(file_bytes)))
                }
            }
        }
    }
}

/// Whether a name and a file name fit the sidecar format.
pub open spec fn encodable(name: Seq<char>, file: Seq<char>) -> bool {
    name.len() > 0 && 6 + encode_utf8(name).len() as int + encode_utf8(file).len() as int <= MAX_FIELD as int
}

/// The sidecar bytes for a plugin name and a shared object's file name.
pub open spec fn encode_sidecar(name: Seq<char>, file: Seq<char>) -> Seq<u8> {
    let nb = encode_utf8(name);
    let fb = encode_utf8(file);
    u16_bytes(6 + nb.len() as int + fb.len() as int) + u16_bytes(nb.len() as int) + nb + u16_bytes(
        fb.len() as int,
    ) + fb
}

/// Registry entry of a discovered plugin: its name, the path of its shared object, and
/// its handle once loaded.
pub struct PluginMetadata<H> {
    pub name: String,
    pub path: String,
    pub plugin: Option<H>,
}

/// What a registry entry stands for: the plugin name, the path of its shared object, and
/// its handle once loaded.
pub ghost struct PluginEntry<H> {
    pub name: Seq<char>,
    pub path: Seq<char>,
    pub plugin: Option<H>,
}

impl<H> PluginEntry<H> {
    /// The same entry with `plugin` as its handle.
    pub open spec fn with_plugin(self, plugin: Option<H>) -> PluginEntry<H> {
        PluginEntry { name: self.name, path: self.path, plugin }
    }
}

impl<H> View for PluginMetadata<H> {
    type V = PluginEntry<H>;

    open spec fn view(&self) -> PluginEntry<H> {
        PluginEntry { name: self.name@, path: self.path@, plugin: self.plugin }
    }
}

impl<H> PluginMetadata<H> {

    /// Whether the plugin has been loaded.
    pub fn is_loaded(&self) -> (r: bool)
        ensures
            r == self.plugin is Some,
    {
        self.plugin.is_some()
    }

    /// Decodes the sidecar bytes `buf` found in directory `metadata_path`; the shared
    /// object lies in the same directory. The entry starts unloaded.
    pub fn from_raw_metadata(metadata_path: &str, buf: &[u8]) -> (r: Result<
        PluginMetadata<H>,
        MetadataError,
    >)
        ensures
            match decode_sidecar(buf@) {
                Ok((name, file)) => r matches Ok(m) && m.name@ == name && m.path@ == path_join(
                    metadata_path@,
                    file,
                ) && m.plugin is None,
                Err(e) => r == Err::<PluginMetadata<H>, MetadataError>(e),
            },
    {
        match decode_metadata(buf) {
            Ok((name, file)) => {
                let path = join_path(metadata_path, &file);
                Ok(PluginMetadata { name, path, plugin: None })
            },
            Err(e) => Err(e),
        }
    }
}

/// Relies on String::from_utf8: it accepts exactly the well-formed UTF-8 byte sequences,
/// and the string it returns holds those bytes.
#[verifier::external_body]
fn string_from_utf8(bytes: Vec<u8>) -> (r: Option<String>)
    ensures
        r is Some <==> valid_utf8(bytes@),
        r matches Some(s) ==> encode_utf8(s@) == bytes@,
{
    String::from_utf8(bytes).ok()
}

/// The two-byte little-endian value at position `i`.
fn read_u16(buf: &[u8], i: usize) -> (r: usize)
    requires
        i + 1 < buf@.len(),
    ensures
        r as int == u16_at(buf@, i as int),
        r <= MAX_FIELD,
{
    buf[i] as usize + 256 * (buf[i + 1] as usize)
}

/// A copy of `buf[from..to]`.
fn copy_range(buf: &[u8], from: usize, to: usize) -> (r: Vec<u8>)
    requires
        from <= to <= buf@.len(),
    ensures
        r@ == buf@.subrange(from as int, to as int),
{
    let mut out: Vec<u8> = Vec::new();
    let mut i = from;
    while i < to
        invariant
            from <= i <= to <= buf@.len(),
            out@ == buf@.subrange(from as int, i as int),
        decreases to - i,
    {
        out.push(buf[i]);
        assert(out@ =~= buf@.subrange(from as int, i + 1));
        i += 1;
    }
    out
}

/// Decodes the UTF-8 text in `buf[from..to]`.
fn decode_text(buf: &[u8], from: usize, to: usize) -> (r: Option<String>)
    requires
        from <= to <= buf@.len(),
    ensures
        r is Some <==> valid_utf8(buf@.subrange(from as int, to as int)),
        r matches Some(s) ==> s@ == decode_utf8(buf@.subrange(from as int, to as int)),
{
    let bytes = copy_range(buf, from, to);
    let r = string_from_utf8(bytes);
    proof {
        if r is Some {
            encode_utf8_decode_utf8(r->0@);
        }
    }
    r
}

/// Decodes a sidecar buffer into the plugin name and the shared object's file name.
pub fn decode_metadata(buf: &[u8]) -> (r: Result<(String, String), MetadataError>)
    ensures
        match decode_sidecar(buf@) {
            Ok((name, file)) => r matches Ok((n, f)) && n@ == name && f@ == file,
            Err(e) => r == Err::<(String, String), MetadataError>(e),
        },
{
    let len = buf.len();
    if len < 2 {
        return Err(MetadataError::Truncated);
    }
    let total = read_u16(buf, 0);
    if total != len {
        return Err(MetadataError::LengthMismatch);
    }
    if len < 4 {
        return Err(MetadataError::Truncated);
    }
    let name_len = read_u16(buf, 2);
    if len < 6 + name_len {
        return Err(MetadataError::Truncated);
    }
    if name_len == 0 {
        return Err(MetadataError::EmptyName);
    }
    let file_len = read_u16(buf, 4 + name_len);
    if len < 6 + name_len + file_len {
        return Err(MetadataError::Truncated);
    }
    if len > 6 + name_len + file_len {
        return Err(MetadataError::LengthMismatch);
    }
    let name = decode_text(buf, 4, 4 + name_len);
    let file = decode_text(buf, 6 + name_len, len);
    match (name, file) {
        (Some(n), Some(f)) => Ok((n, f)),
        _ => Err(MetadataError::InvalidUtf8),
    }
}

/// Appends the two-byte little-endian encoding of `x`.
fn push_u16(out: &mut Vec<u8>, x: usize)
    requires
        x <= MAX_FIELD,
    ensures
        final(out)@ == old(out)@ + u16_bytes(x as int),
{
    out.push((x % 256) as u8);
    out.push((x / 256) as u8);
    assert(final(out)@ =~= old(out)@ + u16_bytes(x as int));
}

/// Appends the bytes of `b`.
fn push_all(out: &mut Vec<u8>, b: &[u8])
    ensures
        final(out)@ == old(out)@ + b@,
{
    let mut i: usize = 0;
    while i < b.len()
        invariant
            i <= b@.len(),
            out@ == old(out)@ + b@.subrange(0, i as int),
        decreases b@.len() - i,
    {
        out.push(b[i]);
        assert(out@ =~= old(out)@ + b@.subrange(0, i + 1));
        i += 1;
    }
    assert(b@.subrange(0, b@.len() as int) =~= b@);
}

/// Encodes a plugin name and a shared object's file name as sidecar bytes.
pub fn encode_metadata(name: &str, filename: &str) -> (r: Result<Vec<u8>, MetadataError>)
    ensures
        name@.len() == 0 ==> r == Err::<Vec<u8>, MetadataError>(MetadataError::EmptyName),
        name@.len() > 0 && !encodable(name@, filename@) ==> r == Err::<Vec<u8>, MetadataError>(
            MetadataError::TooLong,
        ),
        encodable(name@, filename@) ==> (r matches Ok(v) && v@ == encode_sidecar(name@, filename@)),
{
    if name.is_empty() {
        return Err(MetadataError::EmptyName);
    }
    let nb = name.as_bytes();
    let fb = filename.as_bytes();
    let nl = nb.len();
    let fl = fb.len();
    if nl > MAX_FIELD || fl > MAX_FIELD || 6 + nl + fl > MAX_FIELD {
        return Err(MetadataError::TooLong);
    }
    let mut out: Vec<u8> = Vec::new();
    push_u16(&mut out, 6 + nl + fl);
    push_u16(&mut out, nl);
    push_all(&mut out, nb);
    push_u16(&mut out, fl);
    push_all(&mut out, fb);
    proof {
        assert(out@ =~= encode_sidecar(name@, filename@));
    }
    Ok(out)
}

/// The two bytes that encode a field value read back as that value.
proof fn lemma_u16_bytes(x: int)
    requires
        0 <= x <= MAX_FIELD,
    ensures
        u16_bytes(x).len() == 2,
        u16_bytes(x)[0] as int + 256 * (u16_bytes(x)[1] as int) == x,
{
    lemma_fundamental_div_mod(x, 256);
    assert(0 <= x % 256 < 256);
    assert(0 <= x / 256 < 256);
}

/// A nonempty text has a nonempty UTF-8 encoding.
proof fn lemma_encode_nonempty(s: Seq<char>)
    requires
        s.len() > 0,
    ensures
        encode_utf8(s).len() > 0,
{
    assert(encode_utf8(s) == vstd::utf8::encode_scalar(s[0] as u32) + encode_utf8(s.drop_first()));
}

/// Decoding the encoding of a name and a file name that fit the format gives back both.
pub proof fn lemma_metadata_round_trip(name: Seq<char>, file: Seq<char>)
    requires
        encodable(name, file),
    ensures
        decode_sidecar(encode_sidecar(name, file)) == Ok::<(Seq<char>, Seq<char>), MetadataError>(
            (name, file),
        ),
{
    let nb = encode_utf8(name);
    let fb = encode_utf8(file);
    let nl = nb.len() as int;
    let fl = fb.len() as int;
    let total = 6 + nl + fl;
    let e = encode_sidecar(name, file);
    lemma_encode_nonempty(name);
    lemma_u16_bytes(total);
    lemma_u16_bytes(nl);
    lemma_u16_bytes(fl);
    encode_utf8_valid_utf8(name);
    encode_utf8_valid_utf8(file);
    encode_utf8_decode_utf8(name);
    encode_utf8_decode_utf8(file);
    assert(e.len() == total);
    assert(e[0] == u16_bytes(total)[0] && e[1] == u16_bytes(total)[1]);
    assert(e[2] == u16_bytes(nl)[0] && e[3] == u16_bytes(nl)[1]);
    assert(e[4 + nl] == u16_bytes(fl)[0] && e[5 + nl] == u16_bytes(fl)[1]);
    assert(e.subrange(4, 4 + nl) =~= nb);
    assert(e.subrange(6 + nl, total) =~= fb);
}

/// A buffer whose leading total length disagrees with its size is never decoded.
pub proof fn lemma_total_length_checked(b: Seq<u8>)
    requires
        b.len() >= 2,
        u16_at(b, 0) != b.len(),
    ensures
        decode_sidecar(b) == Err::<(Seq<char>, Seq<char>), MetadataError>(
            MetadataError::LengthMismatch,
        ),
{
}

} // verus!
