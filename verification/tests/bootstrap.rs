use amp_core::application::{create_workspace, join_path, Application, Mode, PathArg, PathKind};
use amp_core::error::Error;
use amp_core::view::Surface;
use amp_core::application::build_terminal;

fn exe_arg() -> PathArg {
    PathArg { raw: String::from("/usr/bin/editor"), kind: PathKind::Missing { absolute: true } }
}

#[test]
fn existing_file_argument_loads_its_contents_into_the_current_buffer() {
    let args = vec![
        exe_arg(),
        PathArg {
            raw: String::from("existing.txt"),
            kind: PathKind::File {
                canonical: String::from("/home/user/existing.txt"),
                content: String::from("abc"),
            },
        },
    ];
    let dir = String::from("/home/user");
    let workspace = create_workspace(&args, &dir, Ok(())).unwrap();
    assert_eq!(workspace.path, "/home/user");
    assert_eq!(workspace.buffers.len(), 1);
    let current = workspace.current_buffer().unwrap();
    assert_eq!(current.data, "abc");
    assert_eq!(current.path.as_deref(), Some("/home/user/existing.txt"));
}

#[test]
fn missing_file_argument_creates_an_empty_buffer_under_the_root() {
    let args = vec![
        exe_arg(),
        PathArg { raw: String::from("missing.txt"), kind: PathKind::Missing { absolute: false } },
    ];
    let dir = String::from("/home/user");
    let workspace = create_workspace(&args, &dir, Ok(())).unwrap();
    assert_eq!(workspace.buffers.len(), 1);
    let current = workspace.current_buffer().unwrap();
    assert_eq!(current.data, "");
    assert_eq!(current.path.as_deref(), Some("/home/user/missing.txt"));
}

#[test]
fn absolute_missing_argument_keeps_its_own_path() {
    let args = vec![
        exe_arg(),
        PathArg { raw: String::from("/tmp/new.txt"), kind: PathKind::Missing { absolute: true } },
    ];
    let dir = String::from("/home/user");
    let workspace = create_workspace(&args, &dir, Ok(())).unwrap();
    let current = workspace.current_buffer().unwrap();
    assert_eq!(current.path.as_deref(), Some("/tmp/new.txt"));
}

#[test]
fn first_directory_argument_becomes_the_root_and_opens_no_buffer() {
    let args = vec![
        exe_arg(),
        PathArg {
            raw: String::from("project"),
            kind: PathKind::Directory { canonical: String::from("/home/user/project") },
        },
        PathArg { raw: String::from("notes.txt"), kind: PathKind::Missing { absolute: false } },
    ];
    let dir = String::from("/home/user");
    let workspace = create_workspace(&args, &dir, Ok(())).unwrap();
    assert_eq!(workspace.path, "/home/user/project");
    // The directory argument is consumed by root resolution: only the
    // later argument opened a buffer, absolutized against the new root.
    assert_eq!(workspace.buffers.len(), 1);
    let current = workspace.current_buffer().unwrap();
    assert_eq!(current.path.as_deref(), Some("/home/user/project/notes.txt"));
}

#[test]
fn later_directory_arguments_are_skipped() {
    let args = vec![
        exe_arg(),
        PathArg { raw: String::from("a.txt"), kind: PathKind::Missing { absolute: false } },
        PathArg {
            raw: String::from("somedir"),
            kind: PathKind::Directory { canonical: String::from("/home/user/somedir") },
        },
        PathArg { raw: String::from("b.txt"), kind: PathKind::Missing { absolute: false } },
    ];
    let dir = String::from("/home/user");
    let workspace = create_workspace(&args, &dir, Ok(())).unwrap();
    // The first argument was not a directory, so the root stays put and
    // the directory in the middle opens nothing.
    assert_eq!(workspace.path, "/home/user");
    assert_eq!(workspace.buffers.len(), 2);
    let current = workspace.current_buffer().unwrap();
    assert_eq!(current.path.as_deref(), Some("/home/user/b.txt"));
}

#[test]
fn no_file_arguments_yield_a_session_without_buffers() {
    let args = vec![exe_arg()];
    let dir = String::from("/home/user");
    let workspace = create_workspace(&args, &dir, Ok(())).unwrap();
    assert_eq!(workspace.path, "/home/user");
    assert_eq!(workspace.buffers.len(), 0);
    assert!(workspace.current_buffer().is_none());
}

#[test]
fn syntax_load_failure_is_fatal_to_bootstrap() {
    let args = vec![exe_arg()];
    let dir = String::from("/home/user");
    let result = create_workspace(&args, &dir, Err(Error::new(String::from("corrupt file"))));
    let err = result.err().unwrap();
    assert_eq!(err.message, "Failed to load user syntaxes: corrupt file");
}

#[test]
fn construction_fails_only_on_surface_or_session_failure() {
    let args = vec![exe_arg()];
    let dir = String::from("/home/user");

    // Surface failure aborts construction with that very error.
    let r = Application::new(
        &args,
        &dir,
        None,
        Err(Error::new(String::from("no terminal"))),
        Ok(()),
        None,
    );
    assert_eq!(r.err().unwrap().message, "no terminal");

    // Syntax failure aborts construction.
    let r = Application::new(
        &args,
        &dir,
        None,
        Ok(Surface::new(build_terminal())),
        Err(Error::new(String::from("bad syntax"))),
        None,
    );
    assert!(r.is_err());

    // Otherwise a fully initialized core is produced, in Normal mode.
    let app = Application::new(&args, &dir, None, Ok(Surface::new(build_terminal())), Ok(()), None)
        .unwrap();
    assert!(matches!(app.mode, Mode::Normal));
    assert!(app.error.is_none());
    assert!(app.search_query.is_none());
    assert_eq!(app.workspace.path, "/home/user");
}

#[test]
fn join_path_inserts_exactly_one_separator() {
    let r = join_path(&String::from("/home/user"), &String::from("x.txt"));
    assert_eq!(r, "/home/user/x.txt");
}
