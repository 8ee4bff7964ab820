//! What the warrant endpoints decide and compute around the store: file names of uploaded
//! letters, who may write, templates for new letters, and the due-date notice.
use vstd::prelude::*;
use crate::auth::claims::{in_group, Claims};
use crate::error::ApiError;
use crate::text::{
    all_ascii, canonical_decomposition, chars_of, is_plain, is_squeezed, keep_plain,
    keep_plain_chars, lemma_keep_plain, lemma_squeeze_is_squeezed, lemma_squeeze_plain, lemma_trim_ascii,
    lemma_squeezed_fixpoint, lemma_squeezed_trim, nfd, push_all, push_signed, push_zero_padded,
    signed_decimal, squeeze, squeeze_chars, string_of, trim, trim_chars, zero_padded,
};
use crate::warrant::dto::NotificationResponse;
use crate::warrant::model::{text_or_empty, Warrant, WarrantExt};

verus! {

/// A file name as the service writes it: trimmed, decomposed (NFD), reduced to its ASCII
/// characters other than `*`, with its words joined by single spaces.
pub open spec fn simplified_name(s: Seq<char>) -> Seq<char> {
    squeeze(keep_plain(canonical_decomposition(trim(s))))
}

/// A simple name: ASCII without `*`, and single spaces between words as its only white
/// space.
pub open spec fn is_simple_name(s: Seq<char>) -> bool {
    is_plain(s) && is_squeezed(s)
}

/// Simplifies a file name. The result is always a simple name, and a simple name comes
/// back unchanged; so simplifying twice gives what simplifying once gives. An ASCII name
/// needs no decomposition: it is trimmed, stripped of `*` and squeezed.
pub fn simplify_file_name(input: &str) -> (out: String)
    ensures
        out@ == simplified_name(input@),
        is_simple_name(out@),
        is_simple_name(input@) ==> out@ == input@,
        all_ascii(input@) ==> out@ == squeeze(keep_plain(trim(input@))),
{
    let cs = chars_of(input);
    let trimmed = trim_chars(&cs);
    let trimmed_text = string_of(&trimmed);
    let decomposed = nfd(trimmed_text.as_str());
    let dcs = chars_of(decomposed.as_str());
    let plain = keep_plain_chars(&dcs);
    let squeezed = squeeze_chars(&plain);
    proof {
        lemma_keep_plain(dcs@);
        lemma_squeeze_plain(plain@);
        lemma_squeeze_is_squeezed(plain@);
        if all_ascii(input@) {
            lemma_trim_ascii(input@);
        }
        if is_simple_name(input@) {
            lemma_squeezed_trim(input@);
            assert(all_ascii(trimmed@));
            lemma_squeezed_fixpoint(input@);
        }
    }
    string_of(&squeezed)
}

/// The group whose members may change warrants and see due-date notices.
pub const TESORERIA_GROUP: &'static str = "ACCESS_TESORERIA";

/// The page that a due-date notice points to.
pub const NOTIFICATION_URL: &'static str = "/admin/tesoreria/cartaFianza";

/// The message of a due-date notice goes: this, the count, then [`NOTIFICATION_TAIL`].
pub const NOTIFICATION_HEAD: &'static str = "hay ";

pub const NOTIFICATION_TAIL: &'static str = " cartas fianzas por vencer";

/// The answer to a range listing whose end does not come after its start.
pub const BAD_RANGE_MESSAGE: &'static str = "`to` must be greater than `from`";

/// The name, before simplification, of the uploaded file of `w`:
/// `CF-`, the id zero-padded to four places, `-`, the file number (empty when absent),
/// `-`, the letter number (empty when absent).
pub open spec fn raw_file_name(w: Warrant) -> Seq<char> {
    seq!['C', 'F', '-'] + zero_padded(w.id as int, 4) + seq!['-'] + (match w.expediente {
        Some(e) => signed_decimal(e as int),
        None => Seq::empty(),
    }) + seq!['-'] + text_or_empty(w.nro_carta)
}

/// The name of the uploaded file of `w`: the simplified raw name, then `.` and the
/// extension when the warrant has a non-empty one.
pub open spec fn file_name(w: Warrant) -> Seq<char> {
    let name = simplified_name(raw_file_name(w));
    let extension = text_or_empty(w.extension);
    if extension.len() == 0 {
        name
    } else {
        name + seq!['.'] + extension
    }
}

fn opt_chars(o: &Option<String>) -> (cs: Vec<char>)
    ensures
        cs@ == text_or_empty(*o),
{
    match o {
        Some(s) => chars_of(s.as_str()),
        None => Vec::new(),
    }
}

/// The name of the uploaded file of `warrant`.
pub fn get_file_name(warrant: &Warrant) -> (name: String)
    ensures
        name@ == file_name(*warrant),
{
    let mut raw: Vec<char> = Vec::new();
    raw.push('C');
    raw.push('F');
    raw.push('-');
    push_zero_padded(&mut raw, warrant.id, 4);
    raw.push('-');
    let ghost before_file = raw@;
    match warrant.expediente {
        Some(e) => push_signed(&mut raw, e as i64),
        None => {},
    }
    assert(raw@ == before_file + (match warrant.expediente {
        Some(e) => signed_decimal(e as int),
        None => Seq::<char>::empty(),
    }));
    raw.push('-');
    let carta = opt_chars(&warrant.nro_carta);
    push_all(&mut raw, &carta);
    assert(raw@ =~= raw_file_name(*warrant));
    let raw_text = string_of(&raw);
    let simple = simplify_file_name(raw_text.as_str());
    let extension = opt_chars(&warrant.extension);
    if extension.len() == 0 {
        simple
    } else {
        let mut out = chars_of(simple.as_str());
        out.push('.');
        push_all(&mut out, &extension);
        string_of(&out)
    }
}

/// `a` and `b` agree on every field but `ext`.
pub open spec fn same_except_ext(a: Warrant, b: Warrant) -> bool {
    &&& a.id == b.id
    &&& a.provider_id == b.provider_id
    &&& a.process_type == b.process_type
    &&& a.extension == b.extension
    &&& a.proveedor == b.proveedor
    &&& a.expediente == b.expediente
    &&& a.entidad == b.entidad
    &&& a.numero == b.numero
    &&& a.obra == b.obra
    &&& a.warrant_type_id == b.warrant_type_id
    &&& a.total_bits == b.total_bits
    &&& a.fecha_renovacion == b.fecha_renovacion
    &&& a.nro_carta == b.nro_carta
    &&& a.fecha_emision == b.fecha_emision
    &&& a.fecha_vencimiento == b.fecha_vencimiento
    &&& a.fecha_registro == b.fecha_registro
    &&& a.observacion == b.observacion
    &&& a.confirmacion_banco == b.confirmacion_banco
    &&& a.renovated == b.renovated
    &&& a.status == b.status
    &&& a.canceled == b.canceled
    &&& a.upload == b.upload
    &&& a.diff == b.diff
    &&& a.warrant_type == b.warrant_type
}

/// `w` carries the name of its uploaded file.
pub open spec fn names_its_file(w: Warrant) -> bool {
    w.ext matches Some(e) && e.src@ == file_name(w)
}

/// A warrant as a single read answers it: with the name of its uploaded file.
pub fn with_file_name(warrant: Warrant) -> (w: Warrant)
    ensures
        same_except_ext(w, warrant),
        names_its_file(w),
{
    let src = get_file_name(&warrant);
    let mut w = warrant;
    w.ext = Some(WarrantExt { src });
    w
}

/// Gives each warrant that has an uploaded file the name of that file; the others are
/// left as they are.
pub fn attach_file_names(data: &mut Vec<Warrant>)
    ensures
        final(data)@.len() == old(data)@.len(),
        forall|i: int|
            0 <= i < old(data)@.len() ==> {
                let before = #[trigger] old(data)@[i];
                let after = final(data)@[i];
                if before.upload == Some(true) {
                    same_except_ext(after, before) && names_its_file(after)
                } else {
                    after == before
                }
            },
{
    let mut taken: Vec<Warrant> = Vec::new();
    std::mem::swap(data, &mut taken);
    let ghost all = taken@;
    for warrant in it: taken
        invariant
            it.seq() == all,
            all == old(data)@,
            data@.len() == it.index(),
            forall|i: int|
                0 <= i < it.index() ==> {
                    let before = #[trigger] all[i];
                    let after = data@[i];
                    if before.upload == Some(true) {
                        same_except_ext(after, before) && names_its_file(after)
                    } else {
                        after == before
                    }
                },
    {
        let uploaded = match warrant.upload {
            Some(u) => u,
            None => false,
        };
        if uploaded {
            data.push(with_file_name(warrant));
        } else {
            data.push(warrant);
        }
    }
}

/// A range listing needs an end after its start.
pub fn check_range(from: u64, to: u64) -> (r: Result<(), ApiError>)
    ensures
        r is Ok <==> from < to,
        r matches Err(e) ==> e matches ApiError::BadRequest(m) && m@ == BAD_RANGE_MESSAGE@,
{
    if to <= from {
        Err(ApiError::BadRequest(String::from_str(BAD_RANGE_MESSAGE)))
    } else {
        Ok(())
    }
}

/// Only members of the treasury group may change warrants and see due-date notices.
pub fn require_tesoreria(claims: &Claims) -> (r: Result<(), ApiError>)
    ensures
        r is Ok <==> in_group(*claims, TESORERIA_GROUP@),
        r matches Err(e) ==> e matches ApiError::Forbidden,
{
    if claims.has_group(TESORERIA_GROUP) {
        Ok(())
    } else {
        Err(ApiError::Forbidden)
    }
}

/// The due-date notice for `count` warrants about to fall due.
pub fn notification_response(count: i64) -> (n: NotificationResponse)
    ensures
        n.count == count,
        n.message@ == NOTIFICATION_HEAD@ + signed_decimal(count as int) + NOTIFICATION_TAIL@,
        n.url@ == NOTIFICATION_URL@,
{
    let mut message = chars_of(NOTIFICATION_HEAD);
    push_signed(&mut message, count);
    let tail = chars_of(NOTIFICATION_TAIL);
    push_all(&mut message, &tail);
    NotificationResponse {
        count,
        message: string_of(&message),
        url: String::from_str(NOTIFICATION_URL),
    }
}

/// A warrant with nothing in it: id 0, every optional field absent, not canceled.
pub open spec fn is_blank_warrant(w: Warrant) -> bool {
    &&& w.id == 0
    &&& w.provider_id is None
    &&& w.process_type is None
    &&& w.extension is None
    &&& w.proveedor is None
    &&& w.expediente is None
    &&& w.entidad is None
    &&& w.numero is None
    &&& w.obra is None
    &&& w.warrant_type_id is None
    &&& w.total_bits is None
    &&& w.fecha_renovacion is None
    &&& w.nro_carta is None
    &&& w.fecha_emision is None
    &&& w.fecha_vencimiento is None
    &&& w.fecha_registro is None
    &&& w.observacion is None
    &&& w.confirmacion_banco is None
    &&& w.renovated is None
    &&& w.status is None
    &&& !w.canceled
    &&& w.upload is None
    &&& w.diff is None
    &&& w.warrant_type is None
    &&& w.ext is None
}

/// A template for a new warrant is read from an existing one only for a positive id.
pub fn template_reads_existing(id: i64) -> (b: bool)
    ensures
        b == (id > 0),
{
    id > 0
}

/// The template for a new warrant: blank, but with the file, provider, process type,
/// entity and work of `existing` when there is one.
pub fn template_from(existing: Option<Warrant>) -> (w: Warrant)
    ensures
        existing is None ==> is_blank_warrant(w),
        existing matches Some(e) ==> {
            &&& w.expediente == e.expediente
            &&& w.proveedor == e.proveedor
            &&& w.process_type == e.process_type
            &&& w.entidad == e.entidad
            &&& w.obra == e.obra
            &&& is_blank_warrant(Warrant {
                expediente: None,
                proveedor: None,
                process_type: None,
                entidad: None,
                obra: None,
                ..w
            })
        },
{
    let mut warrant = Warrant {
        id: 0,
        provider_id: None,
        process_type: None,
        extension: None,
        proveedor: None,
        expediente: None,
        entidad: None,
        numero: None,
        obra: None,
        warrant_type_id: None,
        total_bits: None,
        fecha_renovacion: None,
        nro_carta: None,
        fecha_emision: None,
        fecha_vencimiento: None,
        fecha_registro: None,
        observacion: None,
        confirmacion_banco: None,
        renovated: None,
        status: None,
        canceled: false,
        upload: None,
        diff: None,
        warrant_type: None,
        ext: None,
    };
    match existing {
        Some(e) => {
            warrant.expediente = e.expediente;
            warrant.proveedor = e.proveedor;
            warrant.process_type = e.process_type;
            warrant.entidad = e.entidad;
            warrant.obra = e.obra;
        },
        None => {},
    }
    warrant
}

/// A template without a file number takes the next one: the highest in use plus one.
pub fn template_needs_file_number(w: &Warrant) -> (b: bool)
    ensures
        b == w.expediente is None,
{
    w.expediente.is_none()
}

/// Completes a template: the next file number when it has none (`max_expediente` is the
/// highest in use), and an empty file name.
pub fn finish_template(template: Warrant, max_expediente: Option<i32>) -> (w: Warrant)
    requires
        template.expediente is None ==> (max_expediente matches Some(m) && m < i32::MAX),
    ensures
        template.expediente is Some ==> w.expediente == template.expediente,
        template.expediente is None ==> w.expediente == Some((max_expediente->0 + 1) as i32),
        w.ext matches Some(e) && e.src@.len() == 0,
        same_except_ext(
            w,
            Warrant { expediente: w.expediente, ..template },
        ),
{
    let mut w = template;
    if w.expediente.is_none() {
        match max_expediente {
            Some(m) => {
                w.expediente = Some(m + 1);
            },
            None => {},
        }
    }
    w.ext = Some(WarrantExt { src: String::new() });
    w
}

} // verus!
