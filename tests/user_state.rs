use simulados_backend::exam::SimuladoList;
use simulados_backend::names::{ends_with_json, id_from_file_name, names_document_of};
use simulados_backend::progress::{is_valid_theme, join_progress, theme_or_default};

fn summary(id: &str, titulo: &str, n: usize) -> SimuladoList {
    SimuladoList { id: id.to_string(), titulo: titulo.to_string(), descricao: format!("d{}", id), questoes_count: n }
}

#[test]
fn themes() {
    assert!(is_valid_theme("light"));
    assert!(is_valid_theme("dark"));
    assert!(!is_valid_theme("blue"));
    assert!(!is_valid_theme(""));
    assert!(!is_valid_theme("Dark"));
}

#[test]
fn theme_default_is_light() {
    assert_eq!(theme_or_default(None), "light");
    assert_eq!(theme_or_default(Some("dark".to_string())), "dark");
}

#[test]
fn progress_joined_with_listed_exams_only() {
    let list = vec![summary("a", "A", 3), summary("b", "B", 4)];
    let rows = vec![
        ("b".to_string(), "{\"x\":1}".to_string()),
        ("gone".to_string(), "{}".to_string()),
        ("a".to_string(), "{\"y\":2}".to_string()),
    ];
    let out = join_progress(&rows, &list);
    assert_eq!(out.len(), 2);
    assert_eq!(out[0].simulado_id, "b");
    assert_eq!(out[0].titulo, "B");
    assert_eq!(out[0].descricao, "db");
    assert_eq!(out[0].questoes_count, 4);
    assert_eq!(out[0].progress, "{\"x\":1}");
    assert_eq!(out[1].simulado_id, "a");
    assert_eq!(out[1].questoes_count, 3);
}

#[test]
fn progress_join_takes_last_listed_duplicate() {
    let list = vec![summary("a", "Primeiro", 1), summary("a", "Ultimo", 2)];
    let rows = vec![("a".to_string(), "p".to_string())];
    let out = join_progress(&rows, &list);
    assert_eq!(out.len(), 1);
    assert_eq!(out[0].titulo, "Ultimo");
}

#[test]
fn document_names() {
    assert!(ends_with_json("a.json"));
    assert!(ends_with_json(".json"));
    assert!(!ends_with_json("a.jso"));
    assert!(!ends_with_json("a.json.bak"));
    assert_eq!(id_from_file_name("prova_1.json"), "prova_1");
    assert_eq!(id_from_file_name("ção.json"), "ção");
    assert!(names_document_of("x.json", "x"));
    assert!(!names_document_of("x.json", "y"));
    assert!(!names_document_of("x.txt", "x"));
    assert!(!names_document_of("xx.json", "x"));
}
