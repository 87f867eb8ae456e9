use aionui::seed::{
    default_profile_for_role, derive_username, needs_direct_grant, password_seed, sanitize_username, scan_csv,
    temp_password_from_seed, valid_role, CsvError, PASSWORD_CHARSET, choose_seed_user, seed_row_steps, EmployeeRecord,
    SeedStep, SeedUserChoice,
};
use aionui::models::User;

/// The spending cap of a record, read as the binary does.
fn cap(text: &str) -> f64 {
    text.parse::<f64>().unwrap()
}

#[test]
fn derive_username_sanitizes_local_part() {
    assert_eq!(derive_username("Jose.Tabora@ingelmec.com"), "jose.tabora");
    assert_eq!(derive_username("weird+chars@x.com"), "weird_chars");
}

#[test]
fn default_profile_matches_seed_role_packs() {
    assert_eq!(default_profile_for_role("tecnica"), "servimec-tko");
    assert_eq!(default_profile_for_role("ingenieria"), "ingenieria");
    assert_eq!(default_profile_for_role("admin"), "admin");
}

#[test]
fn default_profile_of_every_role() {
    assert_eq!(default_profile_for_role("gerencia"), "gerencia");
    assert_eq!(default_profile_for_role("comercial"), "comercial");
    assert_eq!(default_profile_for_role("financiera"), "financiera");
    assert_eq!(default_profile_for_role("nope"), "");
    assert!(valid_role("financiera"));
    assert!(!valid_role("Admin"));
}

#[test]
fn derive_username_edge_cases() {
    assert_eq!(derive_username("no-at-sign"), "no-at-sign");
    assert_eq!(derive_username("a@b@c"), "a");
    assert_eq!(derive_username("@x.com"), "");
    assert_eq!(derive_username("ÁNA@x.com"), "_na");
    assert_eq!(sanitize_username("a b"), "a_b");
}

#[test]
fn parses_valid_csv() {
    let csv = "email,nombre,rol,perfil,techo_gasto_usd\n\
               ada@ingelmec.com,Ada Lovelace,ingenieria,,8.0\n\
               bob@ingelmec.com,Bob Tecnico,tecnica,servimec-tko,6.0\n";
    let scan = scan_csv(csv);
    assert!(scan.error.is_none());
    let rows = scan.rows;
    assert_eq!(rows.len(), 2);
    assert_eq!(rows[0].email, "ada@ingelmec.com");
    assert_eq!(rows[0].rol, "ingenieria");
    assert_eq!(rows[0].perfil, None);
    assert_eq!(cap(&rows[0].techo_gasto_usd), 8.0);
    assert_eq!(rows[1].perfil.as_deref(), Some("servimec-tko"));
    assert_eq!(rows[0].line_no, 2);
    assert_eq!(rows[1].line_no, 3);
}

#[test]
fn rejects_bad_header() {
    let csv = "email,nombre,role,profile,cap\nada@x.com,Ada,ingenieria,,8.0\n";
    let scan = scan_csv(csv);
    assert!(scan.rows.is_empty());
    match scan.error {
        Some(CsvError::BadHeader(cols)) => assert_eq!(cols, vec!["email", "nombre", "role", "profile", "cap"]),
        other => panic!("expected a bad header, got {:?}", other),
    }
}

#[test]
fn rejects_invalid_role() {
    let csv = "email,nombre,rol,perfil,techo_gasto_usd\nada@x.com,Ada,not-a-role,,8.0\n";
    match scan_csv(csv).error {
        Some(CsvError::InvalidRole { line_no, rol }) => {
            assert_eq!(line_no, 2);
            assert_eq!(rol, "not-a-role");
        }
        other => panic!("expected an invalid role, got {:?}", other),
    }
}

#[test]
fn rejects_invalid_email() {
    let csv = "email,nombre,rol,perfil,techo_gasto_usd\nno-arroba,Ada,ingenieria,,8.0\n";
    match scan_csv(csv).error {
        Some(CsvError::InvalidEmail { line_no, email }) => {
            assert_eq!(line_no, 2);
            assert_eq!(email, "no-arroba");
        }
        other => panic!("expected an invalid email, got {:?}", other),
    }
}

#[test]
fn negative_cap_is_left_to_the_binary() {
    let csv = "email,nombre,rol,perfil,techo_gasto_usd\nada@x.com,Ada,ingenieria,,-1.0\n";
    let scan = scan_csv(csv);
    assert!(scan.error.is_none());
    assert_eq!(scan.rows.len(), 1);
    assert!(cap(&scan.rows[0].techo_gasto_usd) < 0.0);
}

#[test]
fn skips_blank_lines() {
    let csv = "email,nombre,rol,perfil,techo_gasto_usd\n\nada@x.com,Ada,ingenieria,,8.0\n\n";
    let scan = scan_csv(csv);
    assert!(scan.error.is_none());
    assert_eq!(scan.rows.len(), 1);
    assert_eq!(scan.rows[0].line_no, 3);
}

#[test]
fn empty_csv_and_column_count() {
    assert!(matches!(scan_csv("").error, Some(CsvError::Empty)));
    let csv = "email,nombre,rol,perfil,techo_gasto_usd\r\nada@x.com,Ada,ingenieria\r\n";
    match scan_csv(csv).error {
        Some(CsvError::ColumnCount { line_no, found, line }) => {
            assert_eq!(line_no, 2);
            assert_eq!(found, 3);
            assert_eq!(line, "ada@x.com,Ada,ingenieria");
        }
        other => panic!("expected a column count error, got {:?}", other),
    }
}

#[test]
fn rows_before_the_refused_line_are_kept() {
    let csv = "email,nombre,rol,perfil,techo_gasto_usd\nada@x.com,Ada,ingenieria,,8.0\nbob@x.com,,tecnica,,1\n";
    let scan = scan_csv(csv);
    assert_eq!(scan.rows.len(), 1);
    assert!(matches!(scan.error, Some(CsvError::EmptyName { line_no: 3 })));
}

#[test]
fn header_is_trimmed() {
    let csv = "  email , nombre,rol,perfil ,techo_gasto_usd  \nada@x.com, Ada ,admin, ,3\n";
    let scan = scan_csv(csv);
    assert!(scan.error.is_none());
    assert_eq!(scan.rows[0].nombre, "Ada");
    assert_eq!(scan.rows[0].perfil, None);
}

#[test]
fn direct_grant_only_for_a_profile_other_than_the_role_pack() {
    assert!(!needs_direct_grant(None, "tecnica"));
    assert!(!needs_direct_grant(Some("servimec-tko"), "tecnica"));
    assert!(needs_direct_grant(Some("servimec-tko"), "comercial"));
    assert!(needs_direct_grant(Some("x"), "unknown"));
    assert!(!needs_direct_grant(Some(""), "unknown"));
}

#[test]
fn temp_password_is_the_generator_output() {
    assert_eq!(password_seed(123456789, 42), 774763251095924624661);
    assert_eq!(temp_password_from_seed(774763251095924624661), "fLCE$BdM3ViJ7o%S");
    assert_eq!(temp_password_from_seed(0), "ACtQvtCYMYHXqtir");
    assert_eq!(temp_password_from_seed(u128::MAX), "R%VqXZwVoJ23KKHr");
    assert!(temp_password_from_seed(7).chars().all(|c| PASSWORD_CHARSET.contains(c)));
}

fn user(id: &str, email: Option<&str>) -> User {
    User {
        id: id.into(),
        username: id.into(),
        email: email.map(str::to_string),
        password_hash: "h".into(),
        avatar_path: None,
        jwt_secret: None,
        created_at: 0,
        updated_at: 0,
        last_login: None,
        role: "member".into(),
        is_active: true,
        display_name: None,
    }
}

#[test]
fn seeding_reuses_existing_accounts() {
    let by_name = user("u1", None);
    assert_eq!(
        choose_seed_user("ada@ingelmec.com", Some(&by_name), &vec![]),
        SeedUserChoice::Existing("u1".into())
    );
    let users = vec![user("u2", Some("x@y.com")), user("u3", Some("ada@ingelmec.com")), user("u4", Some("ada@ingelmec.com"))];
    assert_eq!(choose_seed_user("ada@ingelmec.com", None, &users), SeedUserChoice::Existing("u3".into()));
    assert_eq!(
        choose_seed_user("Ada.Love+x@ingelmec.com", None, &users),
        SeedUserChoice::Create { username: "ada.love_x".into() }
    );
}

#[test]
fn seeding_steps_of_a_row() {
    let mut row = EmployeeRecord {
        line_no: 2,
        email: "bob@ingelmec.com".into(),
        nombre: "Bob".into(),
        rol: "comercial".into(),
        perfil: None,
        techo_gasto_usd: "6.0".into(),
    };
    assert_eq!(
        seed_row_steps(&row, "u1"),
        vec![
            SeedStep::AssignRole { user_id: "u1".into(), role: "comercial".into() },
            SeedStep::SetLimit { user_id: "u1".into() }
        ]
    );
    row.perfil = Some("comercial".into());
    assert_eq!(seed_row_steps(&row, "u1").len(), 2);
    row.perfil = Some("servimec-tko".into());
    assert_eq!(
        seed_row_steps(&row, "u1")[2],
        SeedStep::DirectGrant { user_id: "u1".into(), profile: "servimec-tko".into() }
    );
}

#[test]
fn derived_usernames_are_stable() {
    for email in ["Ada.Lovelace@ingelmec.com", "j o+se@x", "plain", "UPPER_case-1@z"] {
        let u = derive_username(email);
        assert!(u.chars().all(|c| c.is_ascii_lowercase() || c.is_ascii_digit() || c == '.' || c == '_' || c == '-'));
        assert_eq!(derive_username(&u), u);
    }
}
