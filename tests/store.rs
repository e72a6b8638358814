use simulados_backend::exam::{Questao, Simulado};
use simulados_backend::store::{CorpusFile, SimuladoStore};
use simulados_backend::watcher::{on_fs_event, triggers_invalidation, FsEventKind};

fn questao(id: i64, correct: &str) -> Questao {
    Questao {
        id,
        enunciado: format!("Pergunta {}", id),
        alternativas: vec!["A".to_string(), "B".to_string(), "C".to_string(), "D".to_string()],
        resposta_correta: correct.to_string(),
        explicacao: "Porque sim".to_string(),
        original_index: 99,
    }
}

fn simulado(titulo: &str, n: i64) -> Simulado {
    Simulado {
        titulo: titulo.to_string(),
        descricao: format!("Descricao de {}", titulo),
        questoes: (0..n).map(|i| questao(i + 1, "B")).collect(),
    }
}

fn file(name: &str, doc: Option<Simulado>) -> CorpusFile {
    CorpusFile { file_name: name.to_string(), document: doc }
}

#[test]
fn list_of_two_documents_counts_their_questions() {
    let corpus = vec![file("a.json", Some(simulado("A", 3))), file("b.json", Some(simulado("B", 5)))];
    let mut store = SimuladoStore::new("simulados", &corpus);
    let list = store.get_simulados_list(&corpus);
    assert_eq!(list.len(), 2);
    assert_eq!(list[0].id, "a");
    assert_eq!(list[0].titulo, "A");
    assert_eq!(list[0].descricao, "Descricao de A");
    assert_eq!(list[0].questoes_count, 3);
    assert_eq!(list[1].id, "b");
    assert_eq!(list[1].questoes_count, 5);
    assert_eq!(store.path(), "simulados");
}

#[test]
fn malformed_document_is_left_out_of_list() {
    let corpus = vec![
        file("bom.json", Some(simulado("Bom", 2))),
        file("ruim.json", None),
        file("outro.json", Some(simulado("Outro", 1))),
    ];
    let mut store = SimuladoStore::new("d", &corpus);
    let list = store.get_simulados_list(&corpus);
    let ids: Vec<&str> = list.iter().map(|s| s.id.as_str()).collect();
    assert_eq!(ids, vec!["bom", "outro"]);
    assert!(store.get_simulado("ruim", &corpus).is_none());
}

#[test]
fn files_without_json_extension_are_not_listed() {
    let corpus = vec![
        file("notas.txt", Some(simulado("Notas", 2))),
        file("json", Some(simulado("Curto", 2))),
        file("x.json", Some(simulado("X", 4))),
    ];
    let mut store = SimuladoStore::new("d", &corpus);
    let list = store.get_simulados_list(&corpus);
    assert_eq!(list.len(), 1);
    assert_eq!(list[0].id, "x");
    assert_eq!(list[0].questoes_count, 4);
}

#[test]
fn empty_corpus_gives_empty_list() {
    let corpus: Vec<CorpusFile> = Vec::new();
    let mut store = SimuladoStore::new("d", &corpus);
    assert!(store.get_simulados_list(&corpus).is_empty());
    assert!(store.get_simulado("a", &corpus).is_none());
}

#[test]
fn loaded_questions_are_indexed_in_source_order() {
    let corpus = vec![file("a.json", Some(simulado("A", 3)))];
    let store = SimuladoStore::new("d", &Vec::new());
    let s = store.load_simulado("a", &corpus).unwrap();
    let idx: Vec<usize> = s.questoes.iter().map(|q| q.original_index).collect();
    assert_eq!(idx, vec![0, 1, 2]);
    assert_eq!(s.questoes[2].id, 3);
    assert!(store.load_simulado("b", &corpus).is_none());
}

#[test]
fn cached_exam_is_served_until_invalidated() {
    let v1 = vec![file("a.json", Some(simulado("Primeira", 1)))];
    let v2 = vec![file("a.json", Some(simulado("Segunda", 2)))];
    let mut store = SimuladoStore::new("d", &Vec::new());
    assert_eq!(store.get_simulado("a", &v1).unwrap().titulo, "Primeira");
    assert_eq!(store.get_simulado("a", &v2).unwrap().titulo, "Primeira");
    assert_eq!(store.cached_simulado("a").unwrap().titulo, "Primeira");
    store.invalidate_cache();
    assert!(store.cached_simulado("a").is_none());
    let again = store.get_simulado("a", &v2).unwrap();
    assert_eq!(again.titulo, "Segunda");
    assert_eq!(again.questoes.len(), 2);
}

#[test]
fn cached_list_is_served_until_invalidated() {
    let v1 = vec![file("a.json", Some(simulado("A", 1)))];
    let v2 = vec![file("a.json", Some(simulado("A", 1))), file("b.json", Some(simulado("B", 1)))];
    let mut store = SimuladoStore::new("d", &v1);
    assert_eq!(store.get_simulados_list(&v2).len(), 1);
    store.invalidate_cache();
    store.invalidate_cache();
    assert_eq!(store.get_simulados_list(&v2).len(), 2);
}

#[test]
fn failed_load_caches_nothing() {
    let broken = vec![file("a.json", None)];
    let fixed = vec![file("a.json", Some(simulado("A", 2)))];
    let mut store = SimuladoStore::new("d", &Vec::new());
    assert!(store.get_simulado("a", &broken).is_none());
    assert!(store.cached_simulado("a").is_none());
    assert_eq!(store.get_simulado("a", &fixed).unwrap().questoes.len(), 2);
}

#[test]
fn modify_event_forces_reload() {
    let v1 = vec![file("a.json", Some(simulado("Antes", 1)))];
    let v2 = vec![file("a.json", Some(simulado("Depois", 1)))];
    let mut store = SimuladoStore::new("d", &v1);
    assert!(on_fs_event(&mut store, FsEventKind::Modify));
    assert_eq!(store.get_simulado("a", &v2).unwrap().titulo, "Depois");
    assert_eq!(store.get_simulados_list(&v2)[0].titulo, "Depois");
}

#[test]
fn other_events_leave_caches_alone() {
    let v1 = vec![file("a.json", Some(simulado("Antes", 1)))];
    let v2 = vec![file("a.json", Some(simulado("Depois", 1)))];
    let mut store = SimuladoStore::new("d", &v1);
    assert!(!on_fs_event(&mut store, FsEventKind::Access));
    assert!(!on_fs_event(&mut store, FsEventKind::Other));
    assert_eq!(store.get_simulado("a", &v2).unwrap().titulo, "Antes");
}

#[test]
fn event_kinds_that_invalidate() {
    assert!(triggers_invalidation(FsEventKind::Create));
    assert!(triggers_invalidation(FsEventKind::Modify));
    assert!(triggers_invalidation(FsEventKind::Remove));
    assert!(!triggers_invalidation(FsEventKind::Access));
    assert!(!triggers_invalidation(FsEventKind::Other));
}
