//! Decoding of entry names and comments: UTF-8, or the legacy IBM code
//! page 437 that ZIP tools wrote before UTF-8 was flagged.
use vstd::prelude::*;
use vstd::utf8::{valid_utf8, decode_utf8};

verus! {

/// Text encoding of an archive's names and comments.
#[derive(Debug, Clone, Copy, PartialEq, Eq, Structural)]
pub enum Encoding {
    Utf8,
    Cp437,
}

impl Encoding {
    /// The encoding's usual name.
    pub fn name(&self) -> (r: &'static str)
        ensures
            *self == Encoding::Utf8 ==> r@ == "utf-8"@,
            *self == Encoding::Cp437 ==> r@ == "cp-437"@,
    {
        match self {
            Encoding::Utf8 => "utf-8",
            Encoding::Cp437 => "cp-437",
        }
    }
}

/// The character that code page 437 gives byte `b`.
pub open spec fn cp437_spec(b: u8) -> char {
    if b < 128 {
        b as char
    } else {
        match b {
            128 => '\u{00C7}',
            129 => '\u{00FC}',
            130 => '\u{00E9}',
            131 => '\u{00E2}',
            132 => '\u{00E4}',
            133 => '\u{00E0}',
            134 => '\u{00E5}',
            135 => '\u{00E7}',
            136 => '\u{00EA}',
            137 => '\u{00EB}',
            138 => '\u{00E8}',
            139 => '\u{00EF}',
            140 => '\u{00EE}',
            141 => '\u{00EC}',
            142 => '\u{00C4}',
            143 => '\u{00C5}',
            144 => '\u{00C9}',
            145 => '\u{00E6}',
            146 => '\u{00C6}',
            147 => '\u{00F4}',
            148 => '\u{00F6}',
            149 => '\u{00F2}',
            150 => '\u{00FB}',
            151 => '\u{00F9}',
            152 => '\u{00FF}',
            153 => '\u{00D6}',
            154 => '\u{00DC}',
            155 => '\u{00A2}',
            156 => '\u{00A3}',
            157 => '\u{00A5}',
            158 => '\u{20A7}',
            159 => '\u{0192}',
            160 => '\u{00E1}',
            161 => '\u{00ED}',
            162 => '\u{00F3}',
            163 => '\u{00FA}',
            164 => '\u{00F1}',
            165 => '\u{00D1}',
            166 => '\u{00AA}',
            167 => '\u{00BA}',
            168 => '\u{00BF}',
            169 => '\u{2310}',
            170 => '\u{00AC}',
            171 => '\u{00BD}',
            172 => '\u{00BC}',
            173 => '\u{00A1}',
            174 => '\u{00AB}',
            175 => '\u{00BB}',
            176 => '\u{2591}',
            177 => '\u{2592}',
            178 => '\u{2593}',
            179 => '\u{2502}',
            180 => '\u{2524}',
            181 => '\u{2561}',
            182 => '\u{2562}',
            183 => '\u{2556}',
            184 => '\u{2555}',
            185 => '\u{2563}',
            186 => '\u{2551}',
            187 => '\u{2557}',
            188 => '\u{255D}',
            189 => '\u{255C}',
            190 => '\u{255B}',
            191 => '\u{2510}',
            192 => '\u{2514}',
            193 => '\u{2534}',
            194 => '\u{252C}',
            195 => '\u{251C}',
            196 => '\u{2500}',
            197 => '\u{253C}',
            198 => '\u{255E}',
            199 => '\u{255F}',
            200 => '\u{255A}',
            201 => '\u{2554}',
            202 => '\u{2569}',
            203 => '\u{2566}',
            204 => '\u{2560}',
            205 => '\u{2550}',
            206 => '\u{256C}',
            207 => '\u{2567}',
            208 => '\u{2568}',
            209 => '\u{2564}',
            210 => '\u{2565}',
            211 => '\u{2559}',
            212 => '\u{2558}',
            213 => '\u{2552}',
            214 => '\u{2553}',
            215 => '\u{256B}',
            216 => '\u{256A}',
            217 => '\u{2518}',
            218 => '\u{250C}',
            219 => '\u{2588}',
            220 => '\u{2584}',
            221 => '\u{258C}',
            222 => '\u{2590}',
            223 => '\u{2580}',
            224 => '\u{03B1}',
            225 => '\u{00DF}',
            226 => '\u{0393}',
            227 => '\u{03C0}',
            228 => '\u{03A3}',
            229 => '\u{03C3}',
            230 => '\u{00B5}',
            231 => '\u{03C4}',
            232 => '\u{03A6}',
            233 => '\u{0398}',
            234 => '\u{03A9}',
            235 => '\u{03B4}',
            236 => '\u{221E}',
            237 => '\u{03C6}',
            238 => '\u{03B5}',
            239 => '\u{2229}',
            240 => '\u{2261}',
            241 => '\u{00B1}',
            242 => '\u{2265}',
            243 => '\u{2264}',
            244 => '\u{2320}',
            245 => '\u{2321}',
            246 => '\u{00F7}',
            247 => '\u{2248}',
            248 => '\u{00B0}',
            249 => '\u{2219}',
            250 => '\u{00B7}',
            251 => '\u{221A}',
            252 => '\u{207F}',
            253 => '\u{00B2}',
            254 => '\u{25A0}',
            255 => '\u{00A0}',
            _ => ' ',
        }
    }
}

pub fn cp437_char(b: u8) -> (c: char)
    ensures
        c == cp437_spec(b),
{
    if b < 128 {
        b as char
    } else {
        match b {
            128 => '\u{00C7}',
            129 => '\u{00FC}',
            130 => '\u{00E9}',
            131 => '\u{00E2}',
            132 => '\u{00E4}',
            133 => '\u{00E0}',
            134 => '\u{00E5}',
            135 => '\u{00E7}',
            136 => '\u{00EA}',
            137 => '\u{00EB}',
            138 => '\u{00E8}',
            139 => '\u{00EF}',
            140 => '\u{00EE}',
            141 => '\u{00EC}',
            142 => '\u{00C4}',
            143 => '\u{00C5}',
            144 => '\u{00C9}',
            145 => '\u{00E6}',
            146 => '\u{00C6}',
            147 => '\u{00F4}',
            148 => '\u{00F6}',
            149 => '\u{00F2}',
            150 => '\u{00FB}',
            151 => '\u{00F9}',
            152 => '\u{00FF}',
            153 => '\u{00D6}',
            154 => '\u{00DC}',
            155 => '\u{00A2}',
            156 => '\u{00A3}',
            157 => '\u{00A5}',
            158 => '\u{20A7}',
            159 => '\u{0192}',
            160 => '\u{00E1}',
            161 => '\u{00ED}',
            162 => '\u{00F3}',
            163 => '\u{00FA}',
            164 => '\u{00F1}',
            165 => '\u{00D1}',
            166 => '\u{00AA}',
            167 => '\u{00BA}',
            168 => '\u{00BF}',
            169 => '\u{2310}',
            170 => '\u{00AC}',
            171 => '\u{00BD}',
            172 => '\u{00BC}',
            173 => '\u{00A1}',
            174 => '\u{00AB}',
            175 => '\u{00BB}',
            176 => '\u{2591}',
            177 => '\u{2592}',
            178 => '\u{2593}',
            179 => '\u{2502}',
            180 => '\u{2524}',
            181 => '\u{2561}',
            182 => '\u{2562}',
            183 => '\u{2556}',
            184 => '\u{2555}',
            185 => '\u{2563}',
            186 => '\u{2551}',
            187 => '\u{2557}',
            188 => '\u{255D}',
            189 => '\u{255C}',
            190 => '\u{255B}',
            191 => '\u{2510}',
            192 => '\u{2514}',
            193 => '\u{2534}',
            194 => '\u{252C}',
            195 => '\u{251C}',
            196 => '\u{2500}',
            197 => '\u{253C}',
            198 => '\u{255E}',
            199 => '\u{255F}',
            200 => '\u{255A}',
            201 => '\u{2554}',
            202 => '\u{2569}',
            203 => '\u{2566}',
            204 => '\u{2560}',
            205 => '\u{2550}',
            206 => '\u{256C}',
            207 => '\u{2567}',
            208 => '\u{2568}',
            209 => '\u{2564}',
            210 => '\u{2565}',
            211 => '\u{2559}',
            212 => '\u{2558}',
            213 => '\u{2552}',
            214 => '\u{2553}',
            215 => '\u{256B}',
            216 => '\u{256A}',
            217 => '\u{2518}',
            218 => '\u{250C}',
            219 => '\u{2588}',
            220 => '\u{2584}',
            221 => '\u{258C}',
            222 => '\u{2590}',
            223 => '\u{2580}',
            224 => '\u{03B1}',
            225 => '\u{00DF}',
            226 => '\u{0393}',
            227 => '\u{03C0}',
            228 => '\u{03A3}',
            229 => '\u{03C3}',
            230 => '\u{00B5}',
            231 => '\u{03C4}',
            232 => '\u{03A6}',
            233 => '\u{0398}',
            234 => '\u{03A9}',
            235 => '\u{03B4}',
            236 => '\u{221E}',
            237 => '\u{03C6}',
            238 => '\u{03B5}',
            239 => '\u{2229}',
            240 => '\u{2261}',
            241 => '\u{00B1}',
            242 => '\u{2265}',
            243 => '\u{2264}',
            244 => '\u{2320}',
            245 => '\u{2321}',
            246 => '\u{00F7}',
            247 => '\u{2248}',
            248 => '\u{00B0}',
            249 => '\u{2219}',
            250 => '\u{00B7}',
            251 => '\u{221A}',
            252 => '\u{207F}',
            253 => '\u{00B2}',
            254 => '\u{25A0}',
            255 => '\u{00A0}',
            _ => ' ',
        }
    }
}

/// Relies on `String::from_utf8`: it succeeds exactly on valid UTF-8, and
/// the string then holds the characters that the bytes encode.
#[verifier::external_body]
fn utf8_to_string(b: &[u8]) -> (r: Option<String>)
    ensures
        r is Some <==> valid_utf8(b@),
        r matches Some(s) ==> s@ == decode_utf8(b@),
{
    match String::from_utf8(b.to_vec()) {
        Ok(s) => Some(s),
        Err(_) => None,
    }
}

/// Relies on `String::push`: appends one character.
#[verifier::external_body]
pub(crate) fn push_char(s: &mut String, c: char)
    ensures
        final(s)@ == old(s)@.push(c),
{
    s.push(c)
}

/// `t` is `b` decoded character by character under code page 437.
pub open spec fn cp437_decoded(b: Seq<u8>, t: Seq<char>) -> bool {
    t.len() == b.len() && forall|i: int| 0 <= i < b.len() ==> t[i] == cp437_spec(#[trigger] b[i])
}

/// Decodes `b` under code page 437, where every byte stands for a character.
pub fn decode_cp437(b: &[u8]) -> (r: String)
    ensures
        cp437_decoded(b@, r@),
{
    let mut out = String::new();
    let mut i: usize = 0;
    while i < b.len()
        invariant
            i <= b@.len(),
            out@.len() == i,
            forall|k: int| 0 <= k < i ==> out@[k] == cp437_spec(#[trigger] b@[k]),
        decreases b@.len() - i,
    {
        push_char(&mut out, cp437_char(b[i]));
        i = i + 1;
    }
    out
}

/// Decodes `b` under `encoding`. Only UTF-8 can fail.
pub fn decode_text(b: &[u8], encoding: Encoding) -> (r: Option<String>)
    ensures
        encoding == Encoding::Utf8 ==> (r is Some <==> valid_utf8(b@)) && (r matches Some(s)
            ==> s@ == decode_utf8(b@)),
        encoding == Encoding::Cp437 ==> (r matches Some(s) && cp437_decoded(b@, s@)),
{
    match encoding {
        Encoding::Utf8 => utf8_to_string(b),
        Encoding::Cp437 => Some(decode_cp437(b)),
    }
}

/// Checks that `b` is valid UTF-8.
pub fn is_utf8(b: &[u8]) -> (r: bool)
    ensures
        r == valid_utf8(b@),
{
    utf8_to_string(b).is_some()
}

} // verus!
