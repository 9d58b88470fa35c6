use lazyenv::paths::{activation_path, bin_path, file_name, interpreter_path, join};
use lazyenv::paths::{module_interpreter_path, Layout};

#[test]
fn join_writes_one_separator_between_directory_and_name() {
    assert_eq!(join("/home/user", ".virtualenvs", Layout::Posix), "/home/user/.virtualenvs");
    assert_eq!(join("/home/user/", "x", Layout::Posix), "/home/user/x");
    assert_eq!(join("/", "bin", Layout::Posix), "/bin");
    assert_eq!(join("", "bin", Layout::Posix), "bin");
    assert_eq!(join(".", "venv", Layout::Posix), "./venv");
    assert_eq!(join("C:\\Users\\a", "envs", Layout::Windows), "C:\\Users\\a\\envs");
    assert_eq!(join("C:\\Users\\a\\", "envs", Layout::Windows), "C:\\Users\\a\\envs");
    assert_eq!(join("C:/Users/a/", "envs", Layout::Windows), "C:/Users/a/envs");
    assert_eq!(join("a\\", "b", Layout::Posix), "a\\/b");
}

#[test]
fn join_agrees_with_the_standard_library_on_this_platform() {
    let layout = if std::path::MAIN_SEPARATOR == '\\' { Layout::Windows } else { Layout::Posix };
    for base in ["/home/u", "/home/u/", "rel", "", "/"] {
        for name in ["bin", ".venv", "python"] {
            let expected = std::path::Path::new(base).join(name);
            assert_eq!(join(base, name, layout), expected.to_string_lossy());
        }
    }
}

#[test]
fn posix_layout_keeps_executables_under_bin() {
    assert_eq!(interpreter_path("/e/v", Layout::Posix), "/e/v/bin/python");
    assert_eq!(activation_path("/e/v", Layout::Posix), "/e/v/bin/activate");
    assert_eq!(bin_path("/e/v", "pip", Layout::Posix), "/e/v/bin/pip");
    assert_eq!(module_interpreter_path("/e/v", Layout::Posix), "/e/v/bin/python");
}

#[test]
fn windows_layout_keeps_executables_under_scripts() {
    assert_eq!(interpreter_path("C:\\e\\v", Layout::Windows), "C:\\e\\v\\Scripts\\python.exe");
    assert_eq!(activation_path("C:\\e\\v", Layout::Windows), "C:\\e\\v\\Scripts\\activate.bat");
    assert_eq!(module_interpreter_path("C:\\e\\v", Layout::Windows), "C:\\e\\v\\python.exe");
}

#[test]
fn layout_names() {
    assert_eq!(Layout::Posix.separator(), '/');
    assert_eq!(Layout::Windows.separator(), '\\');
    assert!(Layout::Posix.is_separator('/'));
    assert!(!Layout::Posix.is_separator('\\'));
    assert!(Layout::Windows.is_separator('/'));
    assert!(Layout::Windows.is_separator('\\'));
    assert_eq!(Layout::Posix.bin_dir(), "bin");
    assert_eq!(Layout::Windows.bin_dir(), "Scripts");
    assert_eq!(Layout::Posix.pip_file(), "pip");
    assert_eq!(Layout::Windows.pip_file(), "pip.exe");
    assert_eq!(Layout::Posix.pip3_file(), "pip3");
    assert_eq!(Layout::Windows.pip3_file(), "pip3.exe");
    assert_eq!(Layout::Posix.interpreter_file(), "python");
    assert_eq!(Layout::Windows.interpreter_file(), "python.exe");
    assert_eq!(Layout::Posix.activation_file(), "activate");
    assert_eq!(Layout::Windows.activation_file(), "activate.bat");
}

#[test]
fn file_name_is_the_last_component() {
    let p = Layout::Posix;
    assert_eq!(file_name("/home/u/.virtualenvs/web", p), Some("web".to_string()));
    assert_eq!(file_name("/home/u/.virtualenvs/web/", p), Some("web".to_string()));
    assert_eq!(file_name("web", p), Some("web".to_string()));
    assert_eq!(file_name("./venv", p), Some("venv".to_string()));
    assert_eq!(file_name("/opt/py/3.11.4", p), Some("3.11.4".to_string()));
    assert_eq!(file_name("a//", p), Some("a".to_string()));
    assert_eq!(file_name("a\\b", p), Some("a\\b".to_string()));
    assert_eq!(file_name("C:\\envs\\data", Layout::Windows), Some("data".to_string()));
    assert_eq!(file_name("C:/envs/data\\", Layout::Windows), Some("data".to_string()));
}

#[test]
fn file_name_of_nothing_is_none() {
    let p = Layout::Posix;
    assert_eq!(file_name("", p), None);
    assert_eq!(file_name("/", p), None);
    assert_eq!(file_name("//", p), None);
    assert_eq!(file_name("..", p), None);
    assert_eq!(file_name("a/..", p), None);
    assert_eq!(file_name(".", p), None);
    assert_eq!(file_name("a/../", p), None);
    assert_eq!(file_name("...", p), Some("...".to_string()));
    assert_eq!(file_name(".a", p), Some(".a".to_string()));
}

#[test]
fn file_name_agrees_with_the_standard_library_on_plain_paths() {
    let layout = if std::path::MAIN_SEPARATOR == '\\' { Layout::Windows } else { Layout::Posix };
    for path in ["/home/u/env", "/home/u/env/", "env", "/", "", "a/..", "x/y.z", ".."] {
        let expected = std::path::Path::new(path).file_name().map(|n| n.to_string_lossy().into_owned());
        assert_eq!(file_name(path, layout), expected, "{:?}", path);
    }
}
