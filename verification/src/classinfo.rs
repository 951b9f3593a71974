//! Class-registry decoding: the fixed-size descriptive records a factory
//! reports, read into display strings and class ids.
//!
//! Text fields are byte arrays truncated at the first NUL (or the full
//! length) and decoded as UTF-8.  Enumeration is best-effort: a single
//! malformed entry is skipped, never aborting the listing of the rest.

use vstd::prelude::*;
use vstd::utf8::{decode_utf8, valid_utf8};

use crate::abi::{PClassInfo, K_RESULT_OK};
use crate::HostError;

verus! {

/// The bytes of an `i8` run, each reinterpreted as `u8`, order kept.
pub open spec fn as_bytes_seq(buf: Seq<i8>) -> Seq<u8> {
    buf.map(|_i: int, b: i8| b as u8)
}

/// Count of characters before the first NUL, or the whole length when no
/// NUL occurs.
pub open spec fn nul_prefix_len(buf: Seq<i8>) -> int
    decreases buf.len(),
{
    if buf.len() == 0 {
        0
    } else if buf[0] == 0 {
        0
    } else {
        1 + nul_prefix_len(buf.drop_first())
    }
}

/// The bytes of a fixed-size text field: everything before the first NUL
/// (or the full field), reinterpreted as unsigned bytes.
pub open spec fn nul_prefix(buf: Seq<i8>) -> Seq<u8> {
    as_bytes_seq(buf.take(nul_prefix_len(buf)))
}

proof fn lemma_nul_prefix_len_bounds(buf: Seq<i8>)
    ensures
        0 <= nul_prefix_len(buf) <= buf.len(),
        forall|j: int| 0 <= j < nul_prefix_len(buf) ==> buf[j] != 0,
        nul_prefix_len(buf) < buf.len() ==> buf[nul_prefix_len(buf)] == 0,
    decreases buf.len(),
{
    if buf.len() == 0 {
    } else if buf[0] == 0 {
    } else {
        lemma_nul_prefix_len_bounds(buf.drop_first());
        assert forall|j: int| 0 <= j < nul_prefix_len(buf) implies buf[j] != 0 by {
            if j > 0 {
                assert(buf.drop_first()[j - 1] == buf[j]);
            }
        }
        if nul_prefix_len(buf) < buf.len() {
            assert(buf.drop_first()[nul_prefix_len(buf) - 1] == buf[nul_prefix_len(buf)]);
        }
    }
}

/// Relies on `String::from_utf8`: it succeeds exactly on valid UTF-8 input,
/// and the string it returns holds those very bytes.
#[verifier::external_body]
fn utf8_to_string(bytes: Vec<u8>) -> (r: Option<String>)
    ensures
        r is Some <==> valid_utf8(bytes@),
        r matches Some(s) ==> s@ == decode_utf8(bytes@),
{
    String::from_utf8(bytes).ok()
}

/// Decodes a fixed-size text field: the bytes before the first NUL (or the
/// whole field), read as UTF-8.  Fails with `Utf8` exactly when those bytes
/// are not a valid encoding.
pub fn cstr_from_i8_fixed(buf: &[i8]) -> (r: Result<String, HostError>)
    ensures
        r is Ok <==> valid_utf8(nul_prefix(buf@)),
        r matches Ok(s) ==> s@ == decode_utf8(nul_prefix(buf@)),
        r matches Err(e) ==> e matches HostError::Utf8,
{
    proof {
        lemma_nul_prefix_len_bounds(buf@);
    }
    let n = buf.len();
    let mut bytes: Vec<u8> = Vec::new();
    let mut i: usize = 0;
    while i < n && buf[i] != 0
        invariant
            n == buf@.len(),
            i <= n,
            forall|j: int| 0 <= j < i ==> buf@[j] != 0,
            bytes@ == as_bytes_seq(buf@.take(i as int)),
        decreases n - i,
    {
        bytes.push(buf[i] as u8);
        proof {
            assert(bytes@ =~= as_bytes_seq(buf@.take(i as int + 1)));
        }
        i += 1;
    }
    proof {
        lemma_nul_prefix_len_bounds(buf@);
        let l = nul_prefix_len(buf@);
        if i < n {
            assert(buf@[i as int] == 0);
            assert(l <= i) by {
                if l > i {
                    assert(buf@[i as int] != 0);
                }
            }
        }
        assert(l >= i) by {
            if l < i {
                assert(buf@[l] != 0);
            }
        }
        assert(bytes@ == nul_prefix(buf@));
    }
    match utf8_to_string(bytes) {
        Some(s) => Ok(s),
        None => Err(HostError::Utf8),
    }
}

/// Whether one enumerated class record decodes: the accessor reported
/// success and both text fields are valid UTF-8.
pub open spec fn entry_decodes(e: (i32, PClassInfo)) -> bool {
    e.0 == K_RESULT_OK && valid_utf8(nul_prefix(e.1.name@)) && valid_utf8(nul_prefix(e.1.category@))
}

/// The decoded form of the record at index `i`: index, name, category, and
/// the class id copied verbatim.
pub open spec fn decoded_entry(i: int, e: (i32, PClassInfo)) -> (i32, Seq<char>, Seq<char>, Seq<
    u8,
>) {
    (
        i as i32,
        decode_utf8(nul_prefix(e.1.name@)),
        decode_utf8(nul_prefix(e.1.category@)),
        as_bytes_seq(e.1.cid@),
    )
}

/// The best-effort listing: every record that decodes, in ascending index
/// order, records that fail left out.
pub open spec fn spec_list_classes(entries: Seq<(i32, PClassInfo)>) -> Seq<
    (i32, Seq<char>, Seq<char>, Seq<u8>),
>
    decreases entries.len(),
{
    if entries.len() == 0 {
        Seq::empty()
    } else {
        spec_list_classes(entries.drop_last()) + if entry_decodes(entries.last()) {
            seq![decoded_entry(entries.len() - 1, entries.last())]
        } else {
            Seq::<(i32, Seq<char>, Seq<char>, Seq<u8>)>::empty()
        }
    }
}

/// Interprets a factory's reported class count.  A negative count means the
/// factory rejected the call and is surfaced as a status error, never
/// coerced to zero; zero is a legitimate count.
pub fn check_class_count(n: i32) -> (r: Result<u32, HostError>)
    ensures
        n >= 0 ==> (r matches Ok(c) && c == n),
        n < 0 ==> (r matches Err(e) && e matches HostError::TErr(s) && s == n),
{
    if n >= 0 {
        Ok(n as u32)
    } else {
        Err(HostError::TErr(n))
    }
}

/// Decodes one class record fetched at an explicit index.
///
/// `status` is what the factory's class-info accessor returned; any
/// non-success status is surfaced with its raw code.  On success the name
/// and category fields are decoded with first-NUL-or-end truncation and the
/// 16-byte class id is copied verbatim; a malformed text field fails with
/// `Utf8`.
pub fn read_class_info_v1(status: i32, info: &PClassInfo) -> (r: Result<
    (String, String, [u8; 16]),
    HostError,
>)
    ensures
        status != K_RESULT_OK ==> (r matches Err(e) && e matches HostError::TErr(c) && c
            == status),
        status == K_RESULT_OK ==> (r is Ok <==> entry_decodes((status, *info))),
        r matches Ok(out) ==> out.0@ == decode_utf8(nul_prefix(info.name@)) && out.1@
            == decode_utf8(nul_prefix(info.category@)) && out.2@ == as_bytes_seq(info.cid@),
        status == K_RESULT_OK && !entry_decodes((status, *info)) ==> (r matches Err(e)
            && e matches HostError::Utf8),
{
    if status != K_RESULT_OK {
        return Err(HostError::TErr(status));
    }
    let name = cstr_from_i8_fixed(&info.name)?;
    let category = cstr_from_i8_fixed(&info.category)?;
    let mut cid: [u8; 16] = [0u8; 16];
    let mut i: usize = 0;
    while i < 16
        invariant
            i <= 16,
            forall|k: int| 0 <= k < i ==> cid@[k] == as_bytes_seq(info.cid@)[k],
        decreases 16 - i,
    {
        cid[i] = info.cid[i] as u8;
        i += 1;
    }
    proof {
        assert(cid@ =~= as_bytes_seq(info.cid@));
    }
    Ok((name, category, cid))
}

/// Enumerates a factory's class records, best-effort.
///
/// `entries` holds, for each index in ascending order, the status the
/// class-info accessor returned and the record it filled.  Every record
/// that decodes appears in the result, tagged with its index and in index
/// order; a record that fails to decode is skipped, never aborting the
/// enumeration.
pub fn list_classes(entries: &Vec<(i32, PClassInfo)>) -> (r: Result<
    Vec<(i32, String, String, [u8; 16])>,
    HostError,
>)
    requires
        entries@.len() <= i32::MAX,
    ensures
        r matches Ok(out) && {
            let model = spec_list_classes(entries@);
            out@.len() == model.len() && (forall|j: int|
                0 <= j < model.len() ==> (#[trigger] out@[j]).0 == model[j].0 && out@[j].1@
                    == model[j].1 && out@[j].2@ == model[j].2 && out@[j].3@ == model[j].3)
        },
{
    let n = entries.len();
    let mut out: Vec<(i32, String, String, [u8; 16])> = Vec::new();
    let mut i: usize = 0;
    while i < n
        invariant
            n == entries@.len(),
            n <= i32::MAX,
            i <= n,
            ({
                let model = spec_list_classes(entries@.take(i as int));
                out@.len() == model.len() && (forall|j: int|
                    0 <= j < model.len() ==> (#[trigger] out@[j]).0 == model[j].0 && out@[j].1@
                        == model[j].1 && out@[j].2@ == model[j].2 && out@[j].3@ == model[j].3)
            }),
        decreases n - i,
    {
        proof {
            assert(entries@.take(i as int + 1).drop_last() =~= entries@.take(i as int));
            assert(entries@.take(i as int + 1).last() == entries@[i as int]);
        }
        let (status, info) = &entries[i];
        match read_class_info_v1(*status, info) {
            Ok((name, category, cid)) => {
                out.push((i as i32, name, category, cid));
            },
            Err(_) => {},
        }
        i += 1;
    }
    proof {
        assert(entries@.take(n as int) =~= entries@);
    }
    Ok(out)
}

} // verus!
