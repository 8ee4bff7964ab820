//! A letter of guarantee ("warrant") and the database row it is read from.
//!
//! Dates and times are held as plain numbers: a date-time as microseconds since
//! 1970-01-01T00:00:00 (no time zone). The amount is held as the bit pattern of its
//! 64-bit floating-point value; the library never reads it, it only carries it.
use vstd::prelude::*;
use crate::warrant_type::model::WarrantType;

verus! {

/// What a warrant carries besides its stored fields: the name of its uploaded file.
#[derive(Debug, Clone)]
pub struct WarrantExt {
    pub src: String,
}

/// A letter of guarantee.
#[derive(Debug, Clone)]
pub struct Warrant {
    pub id: i64,
    pub provider_id: Option<i32>,
    pub process_type: Option<String>,
    pub extension: Option<String>,
    pub proveedor: Option<String>,
    pub expediente: Option<i32>,
    pub entidad: Option<String>,
    pub numero: Option<i32>,
    pub obra: Option<String>,
    pub warrant_type_id: Option<i32>,
    /// The amount: the bits of its `f64` value.
    pub total_bits: Option<u64>,
    pub fecha_renovacion: Option<i64>,
    pub nro_carta: Option<String>,
    pub fecha_emision: Option<i64>,
    pub fecha_vencimiento: Option<i64>,
    pub fecha_registro: Option<i64>,
    pub observacion: Option<String>,
    pub confirmacion_banco: Option<String>,
    pub renovated: Option<bool>,
    pub status: Option<bool>,
    pub canceled: bool,
    pub upload: Option<bool>,
    /// Days from today to the due date.
    pub diff: Option<i64>,
    pub warrant_type: Option<WarrantType>,
    pub ext: Option<WarrantExt>,
}

/// A warrant row joined with its warrant type (`wt_id`, `wt_name`).
#[derive(Debug, Clone)]
pub struct WarrantRow {
    pub id: i64,
    pub provider_id: Option<i32>,
    pub process_type: Option<String>,
    pub extension: Option<String>,
    pub proveedor: Option<String>,
    pub expediente: Option<i32>,
    pub entidad: Option<String>,
    pub numero: Option<i32>,
    pub obra: Option<String>,
    pub warrant_type_id: Option<i32>,
    pub total_bits: Option<u64>,
    pub fecha_renovacion: Option<i64>,
    pub nro_carta: Option<String>,
    pub fecha_emision: Option<i64>,
    pub fecha_vencimiento: Option<i64>,
    pub fecha_registro: Option<i64>,
    pub observacion: Option<String>,
    pub confirmacion_banco: Option<String>,
    pub renovated: Option<bool>,
    pub status: Option<bool>,
    pub canceled: bool,
    pub upload: Option<bool>,
    pub diff: Option<i64>,
    pub wt_id: Option<i32>,
    pub wt_name: Option<String>,
}

/// The text of an optional string, empty when absent (`unwrap_or_default`).
pub open spec fn text_or_empty(o: Option<String>) -> Seq<char> {
    match o {
        Some(s) => s@,
        None => Seq::empty(),
    }
}

/// Every stored field of `w` is the same-named field of `row`.
pub open spec fn same_stored_fields(w: Warrant, row: WarrantRow) -> bool {
    &&& w.id == row.id
    &&& w.provider_id == row.provider_id
    &&& w.process_type == row.process_type
    &&& w.extension == row.extension
    &&& w.proveedor == row.proveedor
    &&& w.expediente == row.expediente
    &&& w.entidad == row.entidad
    &&& w.numero == row.numero
    &&& w.obra == row.obra
    &&& w.warrant_type_id == row.warrant_type_id
    &&& w.total_bits == row.total_bits
    &&& w.fecha_renovacion == row.fecha_renovacion
    &&& w.nro_carta == row.nro_carta
    &&& w.fecha_emision == row.fecha_emision
    &&& w.fecha_vencimiento == row.fecha_vencimiento
    &&& w.fecha_registro == row.fecha_registro
    &&& w.observacion == row.observacion
    &&& w.confirmacion_banco == row.confirmacion_banco
    &&& w.renovated == row.renovated
    &&& w.status == row.status
    &&& w.canceled == row.canceled
    &&& w.upload == row.upload
    &&& w.diff == row.diff
}

/// `w` is the warrant of the joined row `row`: its stored fields, its warrant type when
/// the row has one (with an empty name when the type's name is null), and no extension.
pub open spec fn converted(w: Warrant, row: WarrantRow) -> bool {
    &&& same_stored_fields(w, row)
    &&& w.warrant_type is Some <==> row.wt_id is Some
    &&& row.wt_id matches Some(id) ==> w.warrant_type->0.id == id
        && w.warrant_type->0.name@ == text_or_empty(row.wt_name)
    &&& w.ext is None
}

fn name_or_empty(o: Option<String>) -> (s: String)
    ensures
        s@ == text_or_empty(o),
{
    match o {
        Some(s) => s,
        None => String::new(),
    }
}

impl Warrant {
    /// The warrant of a joined row: its stored fields, its warrant type when the row
    /// has one (with an empty name when the type's name is null), and no extension.
    pub fn from(row: WarrantRow) -> (w: Warrant)
        ensures
            converted(w, row),
    {
        let warrant_type = match row.wt_id {
            Some(id) => Some(WarrantType { id, name: name_or_empty(row.wt_name) }),
            None => None,
        };
        Warrant {
            id: row.id,
            provider_id: row.provider_id,
            process_type: row.process_type,
            extension: row.extension,
            proveedor: row.proveedor,
            expediente: row.expediente,
            entidad: row.entidad,
            numero: row.numero,
            obra: row.obra,
            warrant_type_id: row.warrant_type_id,
            total_bits: row.total_bits,
            fecha_renovacion: row.fecha_renovacion,
            nro_carta: row.nro_carta,
            fecha_emision: row.fecha_emision,
            fecha_vencimiento: row.fecha_vencimiento,
            fecha_registro: row.fecha_registro,
            observacion: row.observacion,
            confirmacion_banco: row.confirmacion_banco,
            renovated: row.renovated,
            status: row.status,
            canceled: row.canceled,
            upload: row.upload,
            diff: row.diff,
            warrant_type,
            ext: None,
        }
    }
}

} // verus!
