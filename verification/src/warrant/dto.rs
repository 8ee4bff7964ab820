//! What the warrant endpoints receive and answer.
//!
//! A calendar date is held as its number of days from 0001-01-01 (day 1).
use vstd::prelude::*;
use crate::warrant::model::Warrant;

verus! {

/// The query parameters of a warrant listing.
#[derive(Debug, Clone)]
pub struct WarrantFilter {
    pub code: Option<String>,
    pub obra: Option<String>,
    pub provider: Option<String>,
    pub expediente: Option<String>,
    pub entidad: Option<String>,
    pub warrant_type: Option<Vec<i32>>,
    pub faltan: Option<i32>,
    pub danger: Option<bool>,
    pub fecha_ini: Option<i32>,
    pub fecha_fin: Option<i32>,
    pub page: Option<u32>,
    pub size: Option<u32>,
    pub order: Option<String>,
}

/// The body of a warrant creation or update.
#[derive(Debug, Clone)]
pub struct SaveWarrant {
    pub expediente: Option<i32>,
    pub nro_carta: Option<String>,
    pub obra: Option<String>,
    pub proveedor: Option<String>,
    pub entidad: Option<String>,
    pub warrant_type_id: Option<i32>,
    pub process_type: Option<String>,
    pub fecha_vencimiento: Option<i32>,
    pub fecha_renovacion: Option<i32>,
}

/// One page of warrants and the number of warrants that match the filter.
#[derive(Debug)]
pub struct PagedWarrants {
    pub data: Vec<Warrant>,
    pub size: i64,
}

/// The notice of warrants about to fall due.
#[derive(Debug, Clone)]
pub struct NotificationResponse {
    pub count: i64,
    pub message: String,
    pub url: String,
}

} // verus!
