use metalshade::shader::{ShaderInfo, ShaderManager};
use metalshade::shader_compiler::ShaderCompiler;

fn manager_with(names: &[&str]) -> ShaderManager {
    let mut m = ShaderManager::new();
    for name in names {
        m.push_shader(ShaderInfo {
            name: name.to_string(),
            vert_path: format!("{}.vert.spv", name),
            frag_path: format!("{}.frag.spv", name),
        });
    }
    m
}

#[test]
fn test_shader_compiler() {
    let compiler = ShaderCompiler::new();
    let _ = compiler;
}

#[test]
fn empty_manager() {
    let m = ShaderManager::new();
    assert!(m.is_empty());
    assert_eq!(m.len(), 0);
    assert!(m.get(0).is_none());
    assert!(m.find_by_name(&"a".to_string()).is_none());
}

#[test]
fn push_and_get() {
    let m = manager_with(&["plasma", "tunnel"]);
    assert!(!m.is_empty());
    assert_eq!(m.len(), 2);
    assert_eq!(m.get(0).unwrap().name, "plasma");
    assert_eq!(m.get(1).unwrap().vert_path, "tunnel.vert.spv");
    assert!(m.get(2).is_none());
}

#[test]
fn find_by_name_first_match() {
    let m = manager_with(&["a", "b", "a"]);
    assert_eq!(m.find_by_name(&"a".to_string()), Some(0));
    assert_eq!(m.find_by_name(&"b".to_string()), Some(1));
    assert_eq!(m.find_by_name(&"c".to_string()), None);
}

#[test]
fn navigation_scenario_three_entries() {
    // a list ["a", "b", "c"], current index 0: prev lands on 2 ("c"),
    // and next twice from 2 lands on 1 ("b").
    let m = manager_with(&["a", "b", "c"]);
    let idx = m.prev(0);
    assert_eq!(idx, 2);
    assert_eq!(m.get(idx).unwrap().name, "c");
    let idx = m.next(m.next(2));
    assert_eq!(idx, 1);
    assert_eq!(m.get(idx).unwrap().name, "b");
}

#[test]
fn navigation_cycles_full_lap() {
    // next applied K times from any index returns to that index.
    let m = manager_with(&["a", "b", "c", "d", "e"]);
    for start in 0..5 {
        let mut idx = start;
        for _ in 0..5 {
            idx = m.next(idx);
        }
        assert_eq!(idx, start);
    }
}

#[test]
fn prev_inverts_next() {
    let m = manager_with(&["a", "b", "c", "d"]);
    for idx in 0..4 {
        assert_eq!(m.prev(m.next(idx)), idx);
        assert_eq!(m.next(m.prev(idx)), idx);
    }
}

#[test]
fn clear_empties_list() {
    let mut m = manager_with(&["a", "b"]);
    m.clear();
    assert!(m.is_empty());
}
