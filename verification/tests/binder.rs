use graffiti::platform::{bind_symbols, dylib_file, BindError, Platform};

const HANDLE: u64 = 0x1000;

fn names(list: &[&str]) -> Vec<String> {
    list.iter().map(|s| s.to_string()).collect()
}

#[test]
fn resolution_succeeds_when_every_symbol_exists() {
    let syms = names(&["glfwInit", "glfwCreateWindow", "glfwPostEmptyEvent"]);
    let addrs = vec![0x2000u64, 0x2008, 0x2010];
    let table = bind_symbols(HANDLE, syms, addrs.clone()).unwrap();
    assert_eq!(table.len(), 3);
    // every returned entry point is callable: non-null, and the resolved address
    for (i, a) in addrs.iter().enumerate() {
        let e = table.entry(i);
        assert_ne!(e, 0);
        assert_eq!(e, *a);
    }
}

#[test]
fn one_missing_symbol_fails_the_whole_binding() {
    let syms = names(&["glfwInit", "glfwNoSuchSymbol", "glfwPostEmptyEvent"]);
    let addrs = vec![0x2000u64, 0, 0x2010];
    let r = bind_symbols(HANDLE, syms, addrs);
    assert_eq!(r.err(), Some(BindError::SymbolNotFound(1)));
}

#[test]
fn first_missing_symbol_is_identified() {
    let syms = names(&["a", "b", "c"]);
    let r = bind_symbols(HANDLE, syms, vec![0u64, 0, 0]);
    assert_eq!(r.err(), Some(BindError::SymbolNotFound(0)));
}

#[test]
fn unopened_library_fails_before_any_symbol() {
    let syms = names(&["glfwInit"]);
    let r = bind_symbols(0, syms, vec![0x2000u64]);
    assert_eq!(r.err(), Some(BindError::LibraryNotFound));
}

#[test]
fn empty_symbol_set_binds_trivially() {
    let table = bind_symbols(HANDLE, Vec::new(), Vec::new()).unwrap();
    assert_eq!(table.len(), 0);
}

#[test]
fn dylib_file_names_per_platform() {
    assert_eq!(dylib_file(Platform::Windows, "node", ""), "node.dll");
    assert_eq!(dylib_file(Platform::MacOs, "glfw", "3"), "libglfw.3.dylib");
    assert_eq!(dylib_file(Platform::Linux, "glfw", "3"), "libglfw.so.3");
}
