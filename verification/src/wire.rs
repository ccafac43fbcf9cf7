//! The outbound wire format: the JSON request body and the target URL.
//!
//! The body is framed directly as bytes. String values are escaped as JSON
//! requires (quote, backslash and control characters); every optional field
//! of the request appears on the wire exactly when it is set, under its wire
//! key, and `model` travels under the wire key `model_id`.

use vstd::prelude::*;
use vstd::string::StringSliceAdditionalSpecFns;
use vstd::string::StrSliceExecFns;
use vstd::string::StringExecFns;
use vstd::utf8::encode_utf8;

use crate::types::{
    format_str, model_str, normalization_str, voice_id_str, AudioFormat, SpeechRequest, Voice,
    VoiceSettings,
};

verus! {

/// The UTF-8 encoding of a character sequence. Kept opaque: the assembly
/// proofs below treat each encoded piece as one block.
#[verifier::opaque]
pub open spec fn utf8_bytes(s: Seq<char>) -> Seq<u8> {
    encode_utf8(s)
}

/// Lower-case hex digit for a value below 16.
pub open spec fn hex_digit(n: int) -> u8 {
    if n < 10 {
        (48 + n) as u8
    } else {
        (87 + n) as u8
    }
}

/// The JSON escape of one byte of a UTF-8 encoded string. Bytes of
/// multi-byte characters are at least `0x80` and pass through unchanged.
pub open spec fn esc_one(b: u8) -> Seq<u8> {
    if b == 34 {
        seq![92u8, 34u8]
    } else if b == 92 {
        seq![92u8, 92u8]
    } else if b == 8 {
        seq![92u8, 98u8]
    } else if b == 12 {
        seq![92u8, 102u8]
    } else if b == 10 {
        seq![92u8, 110u8]
    } else if b == 13 {
        seq![92u8, 114u8]
    } else if b == 9 {
        seq![92u8, 116u8]
    } else if b < 32 {
        seq![92u8, 117u8, 48u8, 48u8, hex_digit(b as int / 16), hex_digit(b as int % 16)]
    } else {
        seq![b]
    }
}

/// The escaped form of the byte suffix starting at `i`.
pub open spec fn esc_from(s: Seq<u8>, i: int) -> Seq<u8>
    decreases s.len() - i,
{
    if i < 0 || i >= s.len() {
        Seq::empty()
    } else {
        esc_one(s[i]) + esc_from(s, i + 1)
    }
}

/// A JSON string value: the UTF-8 bytes of `s`, escaped, between quotes.
#[verifier::opaque]
pub open spec fn json_string(s: Seq<char>) -> Seq<u8> {
    seq![34u8] + esc_from(utf8_bytes(s), 0) + seq![34u8]
}

/// The decimal digits of a non-negative integer.
pub open spec fn dec_digits(n: int) -> Seq<u8>
    decreases n,
{
    if n < 10 {
        seq![(48 + if n >= 0 { n } else { 0 }) as u8]
    } else {
        dec_digits(n / 10) + seq![(48 + n % 10) as u8]
    }
}

/// The JSON rendering of a setting knob held in thousandths: a decimal
/// number with at most three fraction digits and no trailing zeros, so
/// `500` renders as `0.5` and `-100` as `-0.1`.
pub open spec fn milli_digits(m: int) -> Seq<u8> {
    let a = if m < 0 {
        -m
    } else {
        m
    };
    (if m < 0 {
        seq![45u8]
    } else {
        Seq::<u8>::empty()
    }) + dec_digits(a / 1000) + frac_digits(a % 1000)
}

/// The fraction part of a thousandths rendering; empty when the value is
/// whole.
pub open spec fn frac_digits(f: int) -> Seq<u8> {
    if f == 0 {
        Seq::empty()
    } else if f % 10 != 0 {
        seq![46u8, (48 + f / 100) as u8, (48 + (f / 10) % 10) as u8, (48 + f % 10) as u8]
    } else if (f / 10) % 10 != 0 {
        seq![46u8, (48 + f / 100) as u8, (48 + (f / 10) % 10) as u8]
    } else {
        seq![46u8, (48 + f / 100) as u8]
    }
}

/// The JSON rendering of a boolean.
pub open spec fn bool_bytes(b: bool) -> Seq<u8> {
    if b {
        utf8_bytes("true"@)
    } else {
        utf8_bytes("false"@)
    }
}

/// The members of a JSON array of strings after the first, each preceded by
/// a comma.
pub open spec fn ids_tail(ids: Seq<String>, i: int) -> Seq<u8>
    decreases ids.len() - i,
{
    if i < 0 || i >= ids.len() {
        Seq::empty()
    } else {
        seq![44u8] + json_string(ids[i]@) + ids_tail(ids, i + 1)
    }
}

/// A JSON array of strings.
pub open spec fn json_string_array(ids: Seq<String>) -> Seq<u8> {
    if ids.len() == 0 {
        utf8_bytes("[]"@)
    } else {
        seq![91u8] + json_string(ids[0]@) + ids_tail(ids, 1) + seq![93u8]
    }
}

/// A comma when a member already precedes, else nothing.
pub open spec fn comma_if(b: bool) -> Seq<u8> {
    if b {
        seq![44u8]
    } else {
        Seq::empty()
    }
}

/// The members of the `voice_settings` wire object, in field order, each
/// present exactly when set.
pub open spec fn settings_members(vs: VoiceSettings) -> Seq<u8> {
    (match vs.stability {
        Some(v) => utf8_bytes("\"stability\":"@) + milli_digits(v as int),
        None => Seq::empty(),
    }) + (match vs.similarity_boost {
        Some(v) => comma_if(vs.stability is Some) + utf8_bytes("\"similarity_boost\":"@)
            + milli_digits(v as int),
        None => Seq::empty(),
    }) + (match vs.style {
        Some(v) => comma_if(vs.stability is Some || vs.similarity_boost is Some)
            + utf8_bytes("\"style\":"@) + milli_digits(v as int),
        None => Seq::empty(),
    }) + (match vs.use_speaker_boost {
        Some(b) => comma_if(
            vs.stability is Some || vs.similarity_boost is Some || vs.style is Some,
        ) + utf8_bytes("\"use_speaker_boost\":"@) + bool_bytes(b),
        None => Seq::empty(),
    })
}

/// The `voice_settings` wire object.
pub open spec fn settings_json(vs: VoiceSettings) -> Seq<u8> {
    seq![123u8] + settings_members(vs) + seq![125u8]
}

/// The leading half of the wire body: `text` and `model_id`, then the
/// optional `language_code` and `voice_settings` members.
pub open spec fn wire_head(req: SpeechRequest) -> Seq<u8> {
    utf8_bytes("{\"text\":"@) + json_string(req.text@) + utf8_bytes(",\"model_id\":"@)
        + json_string(model_str(req.model)) + (match req.language_code {
        Some(lc) => utf8_bytes(",\"language_code\":"@) + json_string(lc@),
        None => Seq::empty(),
    }) + (match req.voice_settings {
        Some(vs) => utf8_bytes(",\"voice_settings\":"@) + settings_json(vs),
        None => Seq::empty(),
    })
}

/// The trailing half of the wire body: the optional members from `seed` on,
/// and the closing brace.
pub open spec fn wire_tail(req: SpeechRequest) -> Seq<u8> {
    (match req.seed {
        Some(s) => utf8_bytes(",\"seed\":"@) + dec_digits(s as int),
        None => Seq::empty(),
    }) + (match req.previous_text {
        Some(t) => utf8_bytes(",\"previous_text\":"@) + json_string(t@),
        None => Seq::empty(),
    }) + (match req.next_text {
        Some(t) => utf8_bytes(",\"next_text\":"@) + json_string(t@),
        None => Seq::empty(),
    }) + (match req.previous_request_ids {
        Some(ids) => utf8_bytes(",\"previous_request_ids\":"@) + json_string_array(ids@),
        None => Seq::empty(),
    }) + (match req.next_request_ids {
        Some(ids) => utf8_bytes(",\"next_request_ids\":"@) + json_string_array(ids@),
        None => Seq::empty(),
    }) + (match req.apply_text_normalization {
        Some(n) => utf8_bytes(",\"apply_text_normalization\":"@) + json_string(
            normalization_str(n),
        ),
        None => Seq::empty(),
    }) + (match req.apply_language_text_normalization {
        Some(b) => utf8_bytes(",\"apply_language_text_normalization\":"@) + bool_bytes(b),
        None => Seq::empty(),
    }) + seq![125u8]
}

/// The full JSON request body. `text` and `model_id` always appear, in that
/// order; every optional field appears exactly when set, in the fixed wire
/// order, and absent fields leave no placeholder behind.
pub open spec fn wire_body(req: SpeechRequest) -> Seq<u8> {
    wire_head(req) + wire_tail(req)
}

/// Appends a byte slice.
fn push_bytes(out: &mut Vec<u8>, b: &[u8])
    ensures
        final(out)@ == old(out)@ + b@,
{
    let mut i: usize = 0;
    while i < b.len()
        invariant
            i <= b@.len(),
            out@ == old(out)@ + b@.subrange(0, i as int),
        decreases b@.len() - i,
    {
        out.push(b[i]);
        proof {
            assert(old(out)@ + b@.subrange(0, i + 1) =~= (old(out)@ + b@.subrange(0, i as int)).push(
                b@[i as int],
            ));
        }
        i = i + 1;
    }
    proof {
        assert(b@.subrange(0, b@.len() as int) =~= b@);
    }
}

/// Appends the UTF-8 bytes of a string slice.
fn push_str_bytes(out: &mut Vec<u8>, s: &str)
    ensures
        final(out)@ == old(out)@ + utf8_bytes(s@),
{
    proof {
        reveal(utf8_bytes);
    }
    push_bytes(out, s.as_bytes());
}

/// Appends the escaped form of a byte slice.
fn push_escaped(out: &mut Vec<u8>, b: &[u8])
    ensures
        final(out)@ == old(out)@ + esc_from(b@, 0),
{
    let mut i: usize = 0;
    while i < b.len()
        invariant
            i <= b@.len(),
            out@ + esc_from(b@, i as int) == old(out)@ + esc_from(b@, 0),
        decreases b@.len() - i,
    {
        let ghost pre = out@;
        let c = b[i];
        if c == 34 {
            out.push(92);
            out.push(34);
        } else if c == 92 {
            out.push(92);
            out.push(92);
        } else if c == 8 {
            out.push(92);
            out.push(98);
        } else if c == 12 {
            out.push(92);
            out.push(102);
        } else if c == 10 {
            out.push(92);
            out.push(110);
        } else if c == 13 {
            out.push(92);
            out.push(114);
        } else if c == 9 {
            out.push(92);
            out.push(116);
        } else if c < 32 {
            out.push(92);
            out.push(117);
            out.push(48);
            out.push(48);
            let hi = c / 16;
            let lo = c % 16;
            out.push(if hi < 10 { 48 + hi } else { 87 + hi });
            out.push(if lo < 10 { 48 + lo } else { 87 + lo });
        } else {
            out.push(c);
        }
        proof {
            assert(out@ =~= pre + esc_one(b@[i as int]));
            assert(out@ + esc_from(b@, i + 1) =~= pre + esc_from(b@, i as int));
        }
        i = i + 1;
    }
    proof {
        assert(esc_from(b@, b@.len() as int) =~= Seq::<u8>::empty());
        assert(out@ =~= out@ + esc_from(b@, b@.len() as int));
    }
}

/// Appends a JSON string value holding `s`.
fn push_json_string(out: &mut Vec<u8>, s: &str)
    ensures
        final(out)@ == old(out)@ + json_string(s@),
{
    proof {
        reveal(json_string);
        reveal(utf8_bytes);
    }
    let ghost start = out@;
    out.push(34);
    push_escaped(out, s.as_bytes());
    out.push(34);
    proof {
        assert(out@ =~= start + json_string(s@));
    }
}

/// Appends the decimal digits of `n`.
fn push_u64_digits(out: &mut Vec<u8>, n: u64)
    ensures
        final(out)@ == old(out)@ + dec_digits(n as int),
    decreases n,
{
    if n < 10 {
        out.push(48 + n as u8);
        proof {
            assert(out@ =~= old(out)@ + dec_digits(n as int));
        }
    } else {
        push_u64_digits(out, n / 10);
        out.push(48 + (n % 10) as u8);
        proof {
            assert(out@ =~= old(out)@ + dec_digits(n as int));
        }
    }
}

/// Appends the thousandths rendering of `m`.
fn push_milli(out: &mut Vec<u8>, m: i32)
    ensures
        final(out)@ == old(out)@ + milli_digits(m as int),
{
    let ghost start = out@;
    let a: i64 = if m < 0 {
        out.push(45);
        -(m as i64)
    } else {
        m as i64
    };
    push_u64_digits(out, (a / 1000) as u64);
    let f: i64 = a % 1000;
    if f != 0 {
        let d1: u8 = 48 + (f / 100) as u8;
        let d2: u8 = 48 + ((f / 10) % 10) as u8;
        let d3: u8 = 48 + (f % 10) as u8;
        if f % 10 != 0 {
            out.push(46);
            out.push(d1);
            out.push(d2);
            out.push(d3);
        } else if (f / 10) % 10 != 0 {
            out.push(46);
            out.push(d1);
            out.push(d2);
        } else {
            out.push(46);
            out.push(d1);
        }
    }
    proof {
        assert(out@ =~= start + milli_digits(m as int));
    }
}

/// Appends `true` or `false`.
fn push_bool(out: &mut Vec<u8>, b: bool)
    ensures
        final(out)@ == old(out)@ + bool_bytes(b),
{
    if b {
        push_str_bytes(out, "true");
    } else {
        push_str_bytes(out, "false");
    }
}

/// Appends a JSON array holding every identifier of `ids`, in order.
fn push_string_array(out: &mut Vec<u8>, ids: &Vec<String>)
    ensures
        final(out)@ == old(out)@ + json_string_array(ids@),
{
    let ghost start = out@;
    if ids.len() == 0 {
        push_str_bytes(out, "[]");
        return ;
    }
    out.push(91);
    push_json_string(out, ids[0].as_str());
    let mut i: usize = 1;
    while i < ids.len()
        invariant
            1 <= i <= ids@.len(),
            ids@.len() > 0,
            out@ + ids_tail(ids@, i as int) == start + seq![91u8] + json_string(ids@[0]@)
                + ids_tail(ids@, 1),
        decreases ids@.len() - i,
    {
        let ghost pre = out@;
        out.push(44);
        push_json_string(out, ids[i].as_str());
        proof {
            assert(out@ =~= pre + seq![44u8] + json_string(ids@[i as int]@));
            assert(out@ + ids_tail(ids@, i + 1) =~= pre + ids_tail(ids@, i as int));
        }
        i = i + 1;
    }
    out.push(93);
    proof {
        assert(ids_tail(ids@, ids@.len() as int) =~= Seq::<u8>::empty());
        assert(out@ =~= start + json_string_array(ids@));
    }
}

/// How the four member blocks of the settings object reassociate into the
/// braced whole.
proof fn lemma_settings_shape(start: Seq<u8>, m1: Seq<u8>, m2: Seq<u8>, m3: Seq<u8>, m4: Seq<u8>)
    ensures
        ((((start + seq![123u8]) + m1) + m2) + m3) + m4 + seq![125u8] == start + (seq![123u8] + (((
        m1 + m2) + m3) + m4) + seq![125u8]),
{
    assert(((((start + seq![123u8]) + m1) + m2) + m3) + m4 + seq![125u8] =~= start + (seq![123u8]
        + (((m1 + m2) + m3) + m4) + seq![125u8]));
}

/// Appends the `voice_settings` wire object.
fn push_settings(out: &mut Vec<u8>, vs: &VoiceSettings)
    ensures
        final(out)@ == old(out)@ + settings_json(*vs),
{
    let ghost start = out@;
    let ghost mut acc: Seq<u8> = start + seq![123u8];
    out.push(123);
    let mut any: bool = false;
    if let Some(v) = vs.stability {
        push_str_bytes(out, "\"stability\":");
        push_milli(out, v);
        any = true;
    }
    proof {
        let ghost prev = acc;
        acc = acc + (match vs.stability {
            Some(v) => utf8_bytes("\"stability\":"@) + milli_digits(v as int),
            None => Seq::empty(),
        });
        if vs.stability is Some {
            vstd::seq_lib::lemma_concat_associative(
                prev,
                utf8_bytes("\"stability\":"@),
                milli_digits(vs.stability->Some_0 as int),
            );
        } else {
            assert(prev + Seq::<u8>::empty() =~= prev);
        }
        assert(out@ == acc);
        assert(any == (vs.stability is Some));
    }
    if let Some(v) = vs.similarity_boost {
        if any {
            out.push(44);
        }
        push_str_bytes(out, "\"similarity_boost\":");
        push_milli(out, v);
        any = true;
    }
    proof {
        let ghost prev = acc;
        let ghost c0 = comma_if(vs.stability is Some);
        let ghost k0 = utf8_bytes("\"similarity_boost\":"@);
        acc = acc + (match vs.similarity_boost {
            Some(v) => comma_if(vs.stability is Some) + utf8_bytes("\"similarity_boost\":"@)
                + milli_digits(v as int),
            None => Seq::empty(),
        });
        if vs.similarity_boost is Some {
            let v0 = milli_digits(vs.similarity_boost->Some_0 as int);
            if vs.stability is Some {
                assert(out@ == ((prev + c0) + k0) + v0);
            } else {
                assert(c0 + k0 =~= k0);
                assert(out@ == ((prev + c0) + k0) + v0);
            }
            vstd::seq_lib::lemma_concat_associative(prev, c0, k0);
            vstd::seq_lib::lemma_concat_associative(prev, c0 + k0, v0);
        } else {
            assert(prev + Seq::<u8>::empty() =~= prev);
        }
        assert(out@ == acc);
        assert(any == (vs.stability is Some || vs.similarity_boost is Some));
    }
    if let Some(v) = vs.style {
        if any {
            out.push(44);
        }
        push_str_bytes(out, "\"style\":");
        push_milli(out, v);
        any = true;
    }
    proof {
        let ghost prev = acc;
        let ghost c0 = comma_if(vs.stability is Some || vs.similarity_boost is Some);
        let ghost k0 = utf8_bytes("\"style\":"@);
        acc = acc + (match vs.style {
            Some(v) => comma_if(vs.stability is Some || vs.similarity_boost is Some)
                + utf8_bytes("\"style\":"@) + milli_digits(v as int),
            None => Seq::empty(),
        });
        if vs.style is Some {
            let v0 = milli_digits(vs.style->Some_0 as int);
            if vs.stability is Some || vs.similarity_boost is Some {
                assert(out@ == ((prev + c0) + k0) + v0);
            } else {
                assert(c0 + k0 =~= k0);
                assert(out@ == ((prev + c0) + k0) + v0);
            }
            vstd::seq_lib::lemma_concat_associative(prev, c0, k0);
            vstd::seq_lib::lemma_concat_associative(prev, c0 + k0, v0);
        } else {
            assert(prev + Seq::<u8>::empty() =~= prev);
        }
        assert(out@ == acc);
        assert(any == (vs.stability is Some || vs.similarity_boost is Some || vs.style is Some));
    }
    if let Some(b) = vs.use_speaker_boost {
        if any {
            out.push(44);
        }
        push_str_bytes(out, "\"use_speaker_boost\":");
        push_bool(out, b);
    }
    proof {
        let ghost prev = acc;
        let ghost c0 = comma_if(
            vs.stability is Some || vs.similarity_boost is Some || vs.style is Some,
        );
        let ghost k0 = utf8_bytes("\"use_speaker_boost\":"@);
        acc = acc + (match vs.use_speaker_boost {
            Some(b) => comma_if(
                vs.stability is Some || vs.similarity_boost is Some || vs.style is Some,
            ) + utf8_bytes("\"use_speaker_boost\":"@) + bool_bytes(b),
            None => Seq::empty(),
        });
        if vs.use_speaker_boost is Some {
            let v0 = bool_bytes(vs.use_speaker_boost->Some_0);
            if vs.stability is Some || vs.similarity_boost is Some || vs.style is Some {
                assert(out@ == ((prev + c0) + k0) + v0);
            } else {
                assert(c0 + k0 =~= k0);
                assert(out@ == ((prev + c0) + k0) + v0);
            }
            vstd::seq_lib::lemma_concat_associative(prev, c0, k0);
            vstd::seq_lib::lemma_concat_associative(prev, c0 + k0, v0);
        } else {
            assert(prev + Seq::<u8>::empty() =~= prev);
        }
        assert(out@ == acc);
    }
    out.push(125);
    proof {
        assert(acc.push(125u8) =~= acc + seq![125u8]);
        lemma_settings_shape(
            start,
            (match vs.stability {
                Some(v) => utf8_bytes("\"stability\":"@) + milli_digits(v as int),
                None => Seq::empty(),
            }),
            (match vs.similarity_boost {
                Some(v) => comma_if(vs.stability is Some) + utf8_bytes("\"similarity_boost\":"@)
                    + milli_digits(v as int),
                None => Seq::empty(),
            }),
            (match vs.style {
                Some(v) => comma_if(vs.stability is Some || vs.similarity_boost is Some)
                    + utf8_bytes("\"style\":"@) + milli_digits(v as int),
                None => Seq::empty(),
            }),
            (match vs.use_speaker_boost {
                Some(b) => comma_if(
                    vs.stability is Some || vs.similarity_boost is Some || vs.style is Some,
                ) + utf8_bytes("\"use_speaker_boost\":"@) + bool_bytes(b),
                None => Seq::empty(),
            }),
        );
        assert(out@ == start + settings_json(*vs));
    }
}

/// How the trailing members reassociate around the starting contents.
proof fn lemma_tail_shape(
    o: Seq<u8>,
    m1: Seq<u8>,
    m2: Seq<u8>,
    m3: Seq<u8>,
    m4: Seq<u8>,
    m5: Seq<u8>,
    m6: Seq<u8>,
    m7: Seq<u8>,
)
    ensures
        ((((((((o + m1) + m2) + m3) + m4) + m5) + m6) + m7) + seq![125u8]) == o + (((((((m1 + m2)
            + m3) + m4) + m5) + m6) + m7) + seq![125u8]),
{
    assert(((((((((o + m1) + m2) + m3) + m4) + m5) + m6) + m7) + seq![125u8]) =~= o + (((((((m1
        + m2) + m3) + m4) + m5) + m6) + m7) + seq![125u8]));
}

/// Appends the leading half of the wire body.
#[verifier::rlimit(50)]
fn push_wire_head(out: &mut Vec<u8>, req: &SpeechRequest)
    requires
        old(out)@ == Seq::<u8>::empty(),
    ensures
        final(out)@ == old(out)@ + wire_head(*req),
{
    push_str_bytes(out, "{\"text\":");
    push_json_string(out, req.text.as_str());
    push_str_bytes(out, ",\"model_id\":");
    push_json_string(out, req.model.as_str());
    let ghost mut acc: Seq<u8> = utf8_bytes("{\"text\":"@) + json_string(req.text@) + utf8_bytes(
        ",\"model_id\":"@,
    ) + json_string(model_str(req.model));
    proof {
        assert(Seq::<u8>::empty() + utf8_bytes("{\"text\":"@) =~= utf8_bytes("{\"text\":"@));
        assert(out@ == acc);
    }
    if let Some(lc) = &req.language_code {
        push_str_bytes(out, ",\"language_code\":");
        push_json_string(out, lc.as_str());
    }
    proof {
        let ghost prev = acc;
        acc = acc + (match &req.language_code {
            Some(lc) => utf8_bytes(",\"language_code\":"@) + json_string(lc@),
            None => Seq::empty(),
        });
        if req.language_code is Some {
            vstd::seq_lib::lemma_concat_associative(prev, utf8_bytes(",\"language_code\":"@), json_string(req.language_code->Some_0@));
        } else {
            assert(prev + Seq::<u8>::empty() =~= prev);
        }
        assert(out@ == acc);
    }
    if let Some(vs) = req.voice_settings {
        push_str_bytes(out, ",\"voice_settings\":");
        push_settings(out, &vs);
    }
    proof {
        let ghost prev = acc;
        acc = acc + (match req.voice_settings {
            Some(vs) => utf8_bytes(",\"voice_settings\":"@) + settings_json(vs),
            None => Seq::empty(),
        });
        if req.voice_settings is Some {
            vstd::seq_lib::lemma_concat_associative(prev, utf8_bytes(",\"voice_settings\":"@), settings_json(req.voice_settings->Some_0));
        } else {
            assert(prev + Seq::<u8>::empty() =~= prev);
        }
        assert(out@ == acc);
    }
    proof {
        assert(out@ == old(out)@ + wire_head(*req));
    }
}

/// Appends the trailing half of the wire body.
#[verifier::rlimit(50)]
fn push_wire_tail(out: &mut Vec<u8>, req: &SpeechRequest)
    ensures
        final(out)@ == old(out)@ + wire_tail(*req),
{
    let ghost mut acc: Seq<u8> = out@;
    if let Some(s) = req.seed {
        push_str_bytes(out, ",\"seed\":");
        push_u64_digits(out, s as u64);
    }
    proof {
        let ghost prev = acc;
        acc = acc + (match req.seed {
            Some(s) => utf8_bytes(",\"seed\":"@) + dec_digits(s as int),
            None => Seq::empty(),
        });
        if req.seed is Some {
            vstd::seq_lib::lemma_concat_associative(prev, utf8_bytes(",\"seed\":"@), dec_digits(req.seed->Some_0 as int));
        } else {
            assert(prev + Seq::<u8>::empty() =~= prev);
        }
        assert(out@ == acc);
    }
    if let Some(t) = &req.previous_text {
        push_str_bytes(out, ",\"previous_text\":");
        push_json_string(out, t.as_str());
    }
    proof {
        let ghost prev = acc;
        acc = acc + (match &req.previous_text {
            Some(t) => utf8_bytes(",\"previous_text\":"@) + json_string(t@),
            None => Seq::empty(),
        });
        if req.previous_text is Some {
            vstd::seq_lib::lemma_concat_associative(prev, utf8_bytes(",\"previous_text\":"@), json_string(req.previous_text->Some_0@));
        } else {
            assert(prev + Seq::<u8>::empty() =~= prev);
        }
        assert(out@ == acc);
    }
    if let Some(t) = &req.next_text {
        push_str_bytes(out, ",\"next_text\":");
        push_json_string(out, t.as_str());
    }
    proof {
        let ghost prev = acc;
        acc = acc + (match &req.next_text {
            Some(t) => utf8_bytes(",\"next_text\":"@) + json_string(t@),
            None => Seq::empty(),
        });
        if req.next_text is Some {
            vstd::seq_lib::lemma_concat_associative(prev, utf8_bytes(",\"next_text\":"@), json_string(req.next_text->Some_0@));
        } else {
            assert(prev + Seq::<u8>::empty() =~= prev);
        }
        assert(out@ == acc);
    }
    if let Some(ids) = &req.previous_request_ids {
        push_str_bytes(out, ",\"previous_request_ids\":");
        push_string_array(out, ids);
    }
    proof {
        let ghost prev = acc;
        acc = acc + (match &req.previous_request_ids {
            Some(ids) => utf8_bytes(",\"previous_request_ids\":"@) + json_string_array(ids@),
            None => Seq::empty(),
        });
        if req.previous_request_ids is Some {
            vstd::seq_lib::lemma_concat_associative(prev, utf8_bytes(",\"previous_request_ids\":"@), json_string_array(req.previous_request_ids->Some_0@));
        } else {
            assert(prev + Seq::<u8>::empty() =~= prev);
        }
        assert(out@ == acc);
    }
    if let Some(ids) = &req.next_request_ids {
        push_str_bytes(out, ",\"next_request_ids\":");
        push_string_array(out, ids);
    }
    proof {
        let ghost prev = acc;
        acc = acc + (match &req.next_request_ids {
            Some(ids) => utf8_bytes(",\"next_request_ids\":"@) + json_string_array(ids@),
            None => Seq::empty(),
        });
        if req.next_request_ids is Some {
            vstd::seq_lib::lemma_concat_associative(prev, utf8_bytes(",\"next_request_ids\":"@), json_string_array(req.next_request_ids->Some_0@));
        } else {
            assert(prev + Seq::<u8>::empty() =~= prev);
        }
        assert(out@ == acc);
    }
    if let Some(n) = req.apply_text_normalization {
        push_str_bytes(out, ",\"apply_text_normalization\":");
        push_json_string(out, n.as_str());
    }
    proof {
        let ghost prev = acc;
        acc = acc + (match req.apply_text_normalization {
            Some(n) => utf8_bytes(",\"apply_text_normalization\":"@) + json_string(normalization_str(n)),
            None => Seq::empty(),
        });
        if req.apply_text_normalization is Some {
            vstd::seq_lib::lemma_concat_associative(prev, utf8_bytes(",\"apply_text_normalization\":"@), json_string(normalization_str(req.apply_text_normalization->Some_0)));
        } else {
            assert(prev + Seq::<u8>::empty() =~= prev);
        }
        assert(out@ == acc);
    }
    if let Some(b) = req.apply_language_text_normalization {
        push_str_bytes(out, ",\"apply_language_text_normalization\":");
        push_bool(out, b);
    }
    proof {
        let ghost prev = acc;
        acc = acc + (match req.apply_language_text_normalization {
            Some(b) => utf8_bytes(",\"apply_language_text_normalization\":"@) + bool_bytes(b),
            None => Seq::empty(),
        });
        if req.apply_language_text_normalization is Some {
            vstd::seq_lib::lemma_concat_associative(prev, utf8_bytes(",\"apply_language_text_normalization\":"@), bool_bytes(req.apply_language_text_normalization->Some_0));
        } else {
            assert(prev + Seq::<u8>::empty() =~= prev);
        }
        assert(out@ == acc);
    }
    out.push(125);
    proof {
        assert(acc.push(125u8) =~= acc + seq![125u8]);
        lemma_tail_shape(
            old(out)@,
            (match req.seed {
                Some(s) => utf8_bytes(",\"seed\":"@) + dec_digits(s as int),
                None => Seq::empty(),
            }),
            (match &req.previous_text {
                Some(t) => utf8_bytes(",\"previous_text\":"@) + json_string(t@),
                None => Seq::empty(),
            }),
            (match &req.next_text {
                Some(t) => utf8_bytes(",\"next_text\":"@) + json_string(t@),
                None => Seq::empty(),
            }),
            (match &req.previous_request_ids {
                Some(ids) => utf8_bytes(",\"previous_request_ids\":"@) + json_string_array(ids@),
                None => Seq::empty(),
            }),
            (match &req.next_request_ids {
                Some(ids) => utf8_bytes(",\"next_request_ids\":"@) + json_string_array(ids@),
                None => Seq::empty(),
            }),
            (match req.apply_text_normalization {
                Some(n) => utf8_bytes(",\"apply_text_normalization\":"@) + json_string(
                    normalization_str(n),
                ),
                None => Seq::empty(),
            }),
            (match req.apply_language_text_normalization {
                Some(b) => utf8_bytes(",\"apply_language_text_normalization\":"@) + bool_bytes(
                    b,
                ),
                None => Seq::empty(),
            }),
        );
        assert(out@ == old(out)@ + wire_tail(*req));
    }
}

/// Serializes a request into its JSON wire body.
pub fn serialize_request(req: &SpeechRequest) -> (r: Vec<u8>)
    ensures
        r@ == wire_body(*req),
{
    let mut out: Vec<u8> = Vec::new();
    push_wire_head(&mut out, req);
    push_wire_tail(&mut out, req);
    proof {
        assert(Seq::<u8>::empty() + wire_head(*req) =~= wire_head(*req));
    }
    out
}

/// A request whose optional fields are all unset serializes to exactly the
/// two required members: every never-set field is omitted from the wire
/// body, with no placeholder left behind.
pub proof fn lemma_wire_omits_unset(req: SpeechRequest)
    requires
        req.language_code is None,
        req.voice_settings is None,
        req.seed is None,
        req.previous_text is None,
        req.next_text is None,
        req.previous_request_ids is None,
        req.next_request_ids is None,
        req.apply_text_normalization is None,
        req.apply_language_text_normalization is None,
    ensures
        wire_body(req) == utf8_bytes("{\"text\":"@) + json_string(req.text@) + utf8_bytes(
            ",\"model_id\":"@,
        ) + json_string(model_str(req.model)) + seq![125u8],
{
    assert(wire_body(req) =~= utf8_bytes("{\"text\":"@) + json_string(req.text@) + utf8_bytes(
        ",\"model_id\":"@,
    ) + json_string(model_str(req.model)) + seq![125u8]);
}

/// The target URL for a synthesis call: base URL, the fixed API path, the
/// voice's external identifier, and the output format as a query parameter.
pub open spec fn request_url_chars(base: Seq<char>, v: Voice, f: AudioFormat) -> Seq<char> {
    base + "/v1/text-to-speech/"@ + voice_id_str(v) + "?output_format="@ + format_str(f)
}

/// Builds the target URL string.
pub fn build_request_url(base: &String, v: Voice, f: AudioFormat) -> (r: String)
    ensures
        r@ == request_url_chars(base@, v, f),
{
    let mut u = base.clone();
    u.append("/v1/text-to-speech/");
    u.append(v.as_voice_id());
    u.append("?output_format=");
    u.append(f.as_str());
    u
}

} // verus!
