use axum_erp_api::auth::claims::Claims;
use axum_erp_api::error::ApiError;
use axum_erp_api::sql::{BindValue, SqlPart};
use axum_erp_api::warrant::dto::{SaveWarrant, WarrantFilter};
use axum_erp_api::warrant::model::{Warrant, WarrantRow};
use axum_erp_api::warrant::repository;
use axum_erp_api::warrant::routes::{
    attach_file_names, check_range, finish_template, get_file_name, notification_response,
    require_tesoreria, simplify_file_name, template_from, template_needs_file_number,
    template_reads_existing, with_file_name,
};

fn row(id: i64) -> WarrantRow {
    WarrantRow {
        id,
        provider_id: Some(3),
        process_type: Some("LP".to_string()),
        extension: Some("pdf".to_string()),
        proveedor: Some("ACME".to_string()),
        expediente: Some(12),
        entidad: Some("MUNI".to_string()),
        numero: Some(2),
        obra: Some("Puente".to_string()),
        warrant_type_id: Some(1),
        total_bits: Some(1500.5f64.to_bits()),
        fecha_renovacion: None,
        nro_carta: Some("ABC 1".to_string()),
        fecha_emision: Some(1_700_000_000_000_000),
        fecha_vencimiento: Some(1_710_000_000_000_000),
        fecha_registro: None,
        observacion: None,
        confirmacion_banco: None,
        renovated: Some(false),
        status: Some(true),
        canceled: false,
        upload: Some(true),
        diff: Some(4),
        wt_id: Some(1),
        wt_name: None,
    }
}

fn warrant(id: i64) -> Warrant {
    Warrant::from(row(id))
}

fn empty_filter() -> WarrantFilter {
    WarrantFilter {
        code: None,
        obra: None,
        provider: None,
        expediente: None,
        entidad: None,
        warrant_type: None,
        faltan: None,
        danger: None,
        fecha_ini: None,
        fecha_fin: None,
        page: None,
        size: None,
        order: None,
    }
}

fn claims(groups: &[&str]) -> Claims {
    Claims {
        sub: Some("u1".to_string()),
        upn: None,
        groups: groups.iter().map(|g| g.to_string()).collect(),
        exp: 10,
        iat: None,
        iss: None,
    }
}

#[test]
fn simplify_file_name_decomposes_and_keeps_ascii() {
    assert_eq!(simplify_file_name("  Ñandú *  Perú "), "Nandu Peru");
    assert_eq!(simplify_file_name("a**b"), "ab");
    assert_eq!(simplify_file_name("\t\n"), "");
    assert_eq!(simplify_file_name("CF-0001-2-X"), "CF-0001-2-X");
}

#[test]
fn simplify_file_name_is_idempotent() {
    for input in ["  Ñandú *  Perú ", "x\u{2003}y", "   ", "año  2024 ** ok", "日本 a"] {
        let once = simplify_file_name(input);
        assert_eq!(simplify_file_name(&once), once);
    }
}

#[test]
fn file_name_has_padded_id_file_letter_and_extension() {
    let w = warrant(7);
    assert_eq!(get_file_name(&w), "CF-0007-12-ABC 1.pdf");
    let mut bare = warrant(12345);
    bare.expediente = None;
    bare.nro_carta = None;
    bare.extension = None;
    assert_eq!(get_file_name(&bare), "CF-12345--");
    let mut accented = warrant(-3);
    accented.nro_carta = Some("Cañón  *2".to_string());
    accented.extension = Some(String::new());
    assert_eq!(get_file_name(&accented), "CF--003-12-Canon 2");
}

#[test]
fn single_read_names_the_file() {
    let w = with_file_name(warrant(7));
    assert_eq!(w.ext.unwrap().src, "CF-0007-12-ABC 1.pdf");
}

#[test]
fn only_uploaded_warrants_get_a_file_name() {
    let mut a = warrant(1);
    a.upload = Some(true);
    let mut b = warrant(2);
    b.upload = Some(false);
    let mut c = warrant(3);
    c.upload = None;
    let mut data = vec![a, b, c];
    attach_file_names(&mut data);
    assert_eq!(data.len(), 3);
    assert_eq!(data[0].ext.as_ref().unwrap().src, "CF-0001-12-ABC 1.pdf");
    assert!(data[1].ext.is_none());
    assert!(data[2].ext.is_none());
    assert_eq!(data[1].id, 2);
}

#[test]
fn range_needs_end_after_start() {
    assert!(check_range(1, 2).is_ok());
    match check_range(5, 5) {
        Err(ApiError::BadRequest(m)) => assert_eq!(m, "`to` must be greater than `from`"),
        other => panic!("unexpected {:?}", other),
    }
    assert!(matches!(check_range(6, 5), Err(ApiError::BadRequest(_))));
}

#[test]
fn treasury_group_is_required_to_write() {
    assert!(require_tesoreria(&claims(&["X", "ACCESS_TESORERIA"])).is_ok());
    assert!(matches!(require_tesoreria(&claims(&["access_tesoreria"])), Err(ApiError::Forbidden)));
    assert!(matches!(require_tesoreria(&claims(&[])), Err(ApiError::Forbidden)));
}

#[test]
fn has_group_looks_for_an_exact_member() {
    let c = claims(&["A", "B"]);
    assert!(c.has_group("B"));
    assert!(!c.has_group("C"));
    assert!(!c.has_group(""));
}

#[test]
fn notification_counts_and_points_to_treasury() {
    let n = notification_response(3);
    assert_eq!(n.count, 3);
    assert_eq!(n.message, "hay 3 cartas fianzas por vencer");
    assert_eq!(n.url, "/admin/tesoreria/cartaFianza");
    assert_eq!(notification_response(-1).message, "hay -1 cartas fianzas por vencer");
}

#[test]
fn template_copies_five_fields_and_numbers_the_file() {
    assert!(template_reads_existing(1));
    assert!(!template_reads_existing(0));
    let blank = template_from(None);
    assert_eq!(blank.id, 0);
    assert!(blank.expediente.is_none() && blank.obra.is_none() && !blank.canceled);
    assert!(template_needs_file_number(&blank));
    let done = finish_template(blank, Some(41));
    assert_eq!(done.expediente, Some(42));
    assert_eq!(done.ext.unwrap().src, "");

    let from = template_from(Some(warrant(9)));
    assert_eq!(from.id, 0);
    assert_eq!(from.expediente, Some(12));
    assert_eq!(from.proveedor.as_deref(), Some("ACME"));
    assert_eq!(from.process_type.as_deref(), Some("LP"));
    assert_eq!(from.entidad.as_deref(), Some("MUNI"));
    assert_eq!(from.obra.as_deref(), Some("Puente"));
    assert!(from.nro_carta.is_none() && from.numero.is_none() && from.total_bits.is_none());
    assert!(!template_needs_file_number(&from));
    let kept = finish_template(from, None);
    assert_eq!(kept.expediente, Some(12));
}

#[test]
fn row_becomes_warrant_with_type_and_no_extension() {
    let w = warrant(5);
    assert_eq!(w.id, 5);
    assert_eq!(w.total_bits.map(f64::from_bits), Some(1500.5));
    let t = w.warrant_type.unwrap();
    assert_eq!((t.id, t.name.as_str()), (1, ""));
    assert!(w.ext.is_none());
    let mut r = row(6);
    r.wt_id = None;
    r.wt_name = Some("Fiel".to_string());
    assert!(Warrant::from(r).warrant_type.is_none());
    let mut r = row(6);
    r.wt_name = Some("Fiel".to_string());
    assert_eq!(Warrant::from(r).warrant_type.unwrap().name, "Fiel");
    let ws = repository::warrants_from_rows(vec![row(1), row(2)]);
    assert_eq!(ws.iter().map(|w| w.id).collect::<Vec<_>>(), vec![1, 2]);
}

fn texts(parts: &[SqlPart]) -> String {
    parts
        .iter()
        .map(|p| match p {
            SqlPart::Sql(s) => s.clone(),
            SqlPart::Bind(_) => "?".to_string(),
        })
        .collect()
}

#[test]
fn empty_filter_keeps_live_warrants_only() {
    let mut parts = Vec::new();
    repository::apply_filters(&mut parts, &empty_filter());
    assert_eq!(texts(&parts), " WHERE canceled = 0 ");
    assert_eq!(parts.len(), 1);
}

#[test]
fn full_filter_makes_every_condition_in_order() {
    let f = WarrantFilter {
        code: Some("c 1".into()),
        obra: Some("ob".into()),
        provider: Some("pro v".into()),
        expediente: Some("0 1".into()),
        entidad: Some("mun i".into()),
        warrant_type: Some(vec![4, 5, 6]),
        faltan: Some(-2),
        danger: Some(false),
        fecha_ini: Some(738000),
        fecha_fin: Some(738100),
        page: None,
        size: None,
        order: None,
    };
    let mut parts = Vec::new();
    repository::apply_filters(&mut parts, &f);
    assert_eq!(
        texts(&parts),
        " WHERE canceled = 0  AND LPAD(expediente, 3, '0') LIKE ? AND UPPER(entidad) LIKE ? AND UPPER(obra) LIKE ? AND UPPER(nro_carta) LIKE ? AND UPPER(proveedor) LIKE ? AND warrant_type_id IN (?, ?, ?) AND DATE(fecha_vencimiento) >= ? AND DATE(fecha_vencimiento) <= ? AND DATEDIFF(fecha_vencimiento, CURDATE()) <= 0 "
    );
    let binds: Vec<String> = parts
        .iter()
        .filter_map(|p| match p {
            SqlPart::Bind(b) => Some(format!("{:?}", b)),
            _ => None,
        })
        .collect();
    assert_eq!(
        binds,
        vec![
            "Text(\"%0%1%\")",
            "Text(\"%MUN%I%\")",
            "Text(\"%OB%\")",
            "Text(\"%C%1%\")",
            "Text(\"%PRO%V%\")",
            "Int(4)",
            "Int(5)",
            "Int(6)",
            "Date(738000)",
            "Date(738100)",
        ]
    );
}

#[test]
fn due_window_follows_danger_then_faltan() {
    assert!(matches!(repository::due_window_of(Some(true), Some(-3)), repository::DueWindow::Soon));
    assert!(matches!(repository::due_window_of(None, Some(1)), repository::DueWindow::Soon));
    assert!(matches!(repository::due_window_of(Some(false), Some(-1)), repository::DueWindow::Overdue));
    assert!(matches!(repository::due_window_of(None, Some(2)), repository::DueWindow::Any));
    assert!(matches!(repository::due_window_of(None, None), repository::DueWindow::Any));
    let mut f = empty_filter();
    f.warrant_type = Some(vec![]);
    f.faltan = Some(1);
    let mut parts = Vec::new();
    repository::apply_filters(&mut parts, &f);
    assert_eq!(
        texts(&parts),
        " WHERE canceled = 0  AND DATEDIFF(fecha_vencimiento, CURDATE()) BETWEEN 1 AND 5 "
    );
}

#[test]
fn like_pattern_upper_cases_and_widens() {
    assert_eq!(repository::like_pattern("ñu a", true), "%ÑU%A%");
    assert_eq!(repository::like_pattern("ñu a", false), "%ñu%a%");
    assert_eq!(repository::like_pattern("", true), "%%");
}

fn count_q(s: &str) -> usize {
    s.chars().filter(|c| *c == '?').count()
}

#[test]
fn listing_pages_and_counts_with_the_same_filter() {
    let mut f = empty_filter();
    f.entidad = Some("ab".into());
    f.order = Some("e".into());
    f.size = Some(1000);
    f.page = Some(2);
    assert!(repository::page_offset_fits(&f));
    let q = repository::list(&f);
    assert_eq!(
        q.page.sql,
        format!("{} WHERE canceled = 0  AND UPPER(entidad) LIKE ? ORDER BY expediente DESC, fecha_vencimiento DESC  LIMIT ? OFFSET ?", repository::LIST_SELECT_SQL)
    );
    assert_eq!(format!("{:?}", q.page.binds), "[Text(\"%AB%\"), UInt(500), UInt(1000)]");
    assert_eq!(q.count.sql, "SELECT COUNT(*) FROM warrant WHERE canceled = 0  AND UPPER(entidad) LIKE ?");
    assert_eq!(count_q(&q.page.sql), q.page.binds.len());
    assert_eq!(count_q(&q.count.sql), q.count.binds.len());

    let d = repository::list(&empty_filter());
    assert!(d.page.sql.ends_with(" ORDER BY fecha_vencimiento DESC  LIMIT ? OFFSET ?"));
    assert_eq!(format!("{:?}", d.page.binds), "[UInt(50), UInt(0)]");
}

#[test]
fn page_offset_must_fit() {
    let mut f = empty_filter();
    f.page = Some(u32::MAX);
    assert!(!repository::page_offset_fits(&f));
    f.page = Some(8589934);
    assert!(repository::page_offset_fits(&f));
}

#[test]
fn range_listing_joins_the_type() {
    let mut f = empty_filter();
    f.order = Some("x".into());
    let q = repository::list_range(&f, 10, 20);
    assert_eq!(
        q.page.sql,
        format!("{} WHERE canceled = 0  ORDER BY w.fecha_vencimiento DESC  LIMIT ? OFFSET ?", repository::RANGE_SELECT_SQL)
    );
    assert_eq!(format!("{:?}", q.page.binds), "[BigUInt(20), BigUInt(10)]");
    assert_eq!(q.count.sql, "SELECT COUNT(*) FROM warrant w WHERE canceled = 0 ");
    assert_eq!(count_q(&q.page.sql), q.page.binds.len());
}

fn save(process_type: Option<&str>, with_type_and_date: bool) -> SaveWarrant {
    SaveWarrant {
        expediente: None,
        nro_carta: Some("N-1".into()),
        obra: Some("ob".into()),
        proveedor: None,
        entidad: Some("E".into()),
        warrant_type_id: if with_type_and_date { Some(2) } else { None },
        process_type: process_type.map(|p| p.to_string()),
        fecha_vencimiento: if with_type_and_date { Some(739000) } else { None },
        fecha_renovacion: None,
    }
}

#[test]
fn creation_numbers_within_file_zero_when_absent() {
    let st = repository::next_numero(&save(None, false));
    assert_eq!(st.sql, repository::NEXT_NUMERO_SQL);
    assert_eq!(format!("{:?}", st.binds), "[Int(0)]");
    let mut s = save(None, false);
    s.expediente = Some(7);
    assert_eq!(format!("{:?}", repository::next_numero(&s).binds), "[Int(7)]");
}

#[test]
fn creation_writes_insert_then_renovation_then_propagation() {
    let all = repository::create(&save(Some(" LP "), true), 3);
    assert_eq!(all.len(), 3);
    assert_eq!(all[0].sql, repository::INSERT_SQL);
    assert_eq!(
        format!("{:?}", all[0].binds),
        "[OptInt(None), Int(3), OptText(Some(\"N-1\")), OptText(Some(\"ob\")), OptText(None), OptText(Some(\"E\")), OptInt(Some(2)), OptText(Some(\" LP \")), OptDate(Some(739000)), OptDate(None)]"
    );
    assert_eq!(all[1].sql, repository::RENOVATE_SQL);
    assert_eq!(format!("{:?}", all[1].binds), "[OptInt(None), Int(2), Date(739000)]");
    assert_eq!(all[2].sql, repository::PROPAGATE_SQL);
    assert_eq!(format!("{:?}", all[2].binds), "[Text(\" LP \"), OptInt(None), OptText(Some(\"ob\"))]");

    let blank = repository::create(&save(Some(" \t"), false), 1);
    assert_eq!(blank.len(), 1);
    let none = repository::create(&save(None, true), 1);
    assert_eq!(none.len(), 2);
    assert!(repository::propagate_process_type(&save(Some(""), false)).is_none());
    assert!(repository::renovation(&save(None, false)).is_none());
    assert_eq!(repository::INSERT_SQL.matches('?').count(), 10);
}

#[test]
fn update_binds_the_id_last() {
    let st = repository::update(9, &save(None, false));
    assert_eq!(st.sql, repository::UPDATE_SQL);
    assert_eq!(st.binds.len(), 10);
    assert!(matches!(st.binds[9], BindValue::BigInt(9)));
    assert_eq!(repository::UPDATE_SQL.matches('?').count(), 10);
}

#[test]
fn writes_that_touch_nothing_are_not_found() {
    assert!(matches!(repository::require_affected(0), Err(ApiError::NotFound)));
    assert!(repository::require_affected(1).is_ok());
    let d = repository::delete(4);
    assert_eq!(d.sql, "UPDATE warrant SET canceled = 1 WHERE id = ?");
    assert_eq!(format!("{:?}", d.binds), "[BigInt(4)]");
}

#[test]
fn reads_of_missing_rows_are_not_found() {
    assert!(matches!(repository::found(None), Err(ApiError::NotFound)));
    assert_eq!(repository::found(Some(warrant(3))).unwrap().id, 3);
    let st = repository::find_by_id(3);
    assert_eq!(st.sql, repository::FIND_SQL);
    assert_eq!(format!("{:?}", st.binds), "[BigInt(3)]");
}

#[test]
fn highest_file_number_defaults_to_zero() {
    assert_eq!(repository::max_or_zero(None), 0);
    assert_eq!(repository::max_or_zero(Some(17)), 17);
    assert_eq!(repository::max_expediente().sql, "SELECT MAX(expediente) FROM warrant");
    assert_eq!(
        repository::notification_count().sql,
        "SELECT COUNT(*) FROM warrant WHERE canceled = 0 AND DATEDIFF(fecha_vencimiento, CURDATE()) BETWEEN 1 AND 5"
    );
}

#[test]
fn count_uses_the_filter_of_the_page() {
    let mut f = empty_filter();
    f.provider = Some("x y".into());
    f.warrant_type = Some(vec![7]);
    f.fecha_ini = Some(1);
    let q = repository::list(&f);
    let filter = q.count.sql.strip_prefix("SELECT COUNT(*) FROM warrant").unwrap();
    assert!(q.page.sql.starts_with(&format!("{}{}", repository::LIST_SELECT_SQL, filter)));
    assert_eq!(format!("{:?}", q.count.binds), "[Text(\"%X%Y%\"), Int(7), Date(1)]");
    assert_eq!(q.page.binds.len(), q.count.binds.len() + 2);
    let r = repository::list_range(&f, 0, 10);
    let rfilter = r.count.sql.strip_prefix("SELECT COUNT(*) FROM warrant w").unwrap();
    assert_eq!(rfilter, filter);
    assert!(r.page.sql.starts_with(&format!("{}{}", repository::RANGE_SELECT_SQL, rfilter)));
}

#[test]
fn page_size_is_capped_and_defaulted() {
    let mut f = empty_filter();
    assert_eq!(repository::page_size_of(&f), 50);
    f.size = Some(20);
    assert_eq!(repository::page_size_of(&f), 20);
    f.size = Some(500);
    assert_eq!(repository::page_size_of(&f), 500);
    f.size = Some(501);
    assert_eq!(repository::page_size_of(&f), 500);
}

#[test]
fn placeholders_match_parameters_for_many_filters() {
    for danger in [None, Some(true), Some(false)] {
        for faltan in [None, Some(-1), Some(0), Some(1), Some(3)] {
            for ids in [None, Some(vec![]), Some(vec![1]), Some(vec![1, 2, 3])] {
                let f = WarrantFilter {
                    code: Some("a".into()),
                    obra: None,
                    provider: Some("b c".into()),
                    expediente: None,
                    entidad: Some("?".into()),
                    warrant_type: ids.clone(),
                    faltan,
                    danger,
                    fecha_ini: None,
                    fecha_fin: Some(5),
                    page: Some(1),
                    size: Some(10),
                    order: Some("e".into()),
                };
                let q = repository::list(&f);
                assert_eq!(count_q(&q.page.sql), q.page.binds.len());
                assert_eq!(count_q(&q.count.sql), q.count.binds.len());
                let r = repository::list_range(&f, 1, 2);
                assert_eq!(count_q(&r.page.sql), r.page.binds.len());
                assert_eq!(count_q(&r.count.sql), r.count.binds.len());
            }
        }
    }
}

#[test]
fn count_ignores_page_size_and_order() {
    let mut f = empty_filter();
    f.obra = Some("puente norte".into());
    f.warrant_type = Some(vec![2, 5]);
    f.faltan = Some(-1);
    let mut g = empty_filter();
    g.obra = Some("puente norte".into());
    g.warrant_type = Some(vec![2, 5]);
    g.faltan = Some(-1);
    g.page = Some(7);
    g.size = Some(20);
    g.order = Some("e".into());
    let a = repository::list(&f);
    let b = repository::list(&g);
    assert_eq!(a.count.sql, b.count.sql);
    assert_eq!(format!("{:?}", a.count.binds), format!("{:?}", b.count.binds));
    assert_ne!(a.page.sql, b.page.sql);
    let ra = repository::list_range(&f, 0, 10);
    let rb = repository::list_range(&g, 30, 5);
    assert_eq!(ra.count.sql, rb.count.sql);
    assert_eq!(format!("{:?}", ra.count.binds), format!("{:?}", rb.count.binds));
}

#[test]
fn notification_counts_like_a_due_soon_listing() {
    let mut f = empty_filter();
    f.danger = Some(true);
    let q = repository::list_range(&f, 0, 10);
    assert_eq!(
        q.count.sql,
        "SELECT COUNT(*) FROM warrant w WHERE canceled = 0  AND DATEDIFF(fecha_vencimiento, CURDATE()) BETWEEN 1 AND 5 "
    );
    assert!(q.count.binds.is_empty());
    let n = repository::notification_count();
    assert_eq!(
        n.sql,
        "SELECT COUNT(*) FROM warrant WHERE canceled = 0 AND DATEDIFF(fecha_vencimiento, CURDATE()) BETWEEN 1 AND 5"
    );
    assert!(n.binds.is_empty());
}

#[test]
fn ascii_names_are_trimmed_stripped_and_squeezed() {
    assert_eq!(simplify_file_name("  CF-0007-3-  A*B   C "), "CF-0007-3- AB C");
}
