use pet_reporter::arch::Architecture;
use pet_reporter::category::PythonEnvironmentCategory;
use pet_reporter::environment::Environment;
use pet_reporter::manager::{EnvManager, Manager};
use pet_reporter::path::copy_paths;
use pet_reporter::python_environment::PythonEnvironment;
use std::path::PathBuf;

fn full_source() -> PythonEnvironment {
    PythonEnvironment {
        display_name: Some("Python 3.12 (work)".to_string()),
        name: Some("work".to_string()),
        executable: Some(PathBuf::from("/home/u/.pyenv/versions/work/bin/python")),
        category: PythonEnvironmentCategory::PyenvVirtualEnv,
        version: Some("3.12.1".to_string()),
        prefix: Some(PathBuf::from("/home/u/.pyenv/versions/work")),
        manager: Some(EnvManager {
            executable: PathBuf::from("/usr/bin/pyenv"),
            tool: "pyenv".to_string(),
        }),
        project: Some(PathBuf::from("/home/u/p")),
        arch: Some(Architecture::X86),
        symlinks: Some(vec![
            PathBuf::from("/home/u/.pyenv/versions/work/bin/python"),
            PathBuf::from("/home/u/.pyenv/versions/work/bin/python3"),
        ]),
    }
}

#[test]
fn system_python_report() {
    let source = PythonEnvironment {
        category: PythonEnvironmentCategory::System,
        executable: Some(PathBuf::from("/usr/bin/python3")),
        version: Some("3.11.4".to_string()),
        arch: Some(Architecture::X64),
        ..PythonEnvironment::default()
    };
    let report = Environment::from(&source);
    assert_eq!(report.category, "system");
    assert_eq!(report.executable, Some(PathBuf::from("/usr/bin/python3")));
    assert_eq!(report.version, Some("3.11.4".to_string()));
    assert_eq!(report.arch, Some("x64"));
    assert!(report.display_name.is_none());
    assert!(report.name.is_none());
    assert!(report.prefix.is_none());
    assert!(report.manager.is_none());
    assert!(report.project.is_none());
    assert!(report.symlinks.is_none());
}

#[test]
fn conda_env_with_project_report() {
    let source = PythonEnvironment {
        category: PythonEnvironmentCategory::Conda,
        name: Some("ds".to_string()),
        prefix: Some(PathBuf::from("/opt/conda/envs/ds")),
        project: Some(PathBuf::from("/home/u/p")),
        ..PythonEnvironment::default()
    };
    let report = Environment::from(&source);
    assert_eq!(report.category, "conda");
    assert_eq!(report.name, Some("ds".to_string()));
    assert_eq!(report.prefix, Some(PathBuf::from("/opt/conda/envs/ds")));
    assert_eq!(report.project, Some(PathBuf::from("/home/u/p")));
}

#[test]
fn pyenv_virtualenv_report_token() {
    let source = PythonEnvironment {
        category: PythonEnvironmentCategory::PyenvVirtualEnv,
        ..PythonEnvironment::default()
    };
    assert_eq!(Environment::from(&source).category, "pyenv-virtualenv");
}

#[test]
fn arch_absent_stays_absent() {
    let source = PythonEnvironment {
        category: PythonEnvironmentCategory::Venv,
        executable: Some(PathBuf::from("/w/.venv/bin/python")),
        ..PythonEnvironment::default()
    };
    let report = Environment::from(&source);
    assert_eq!(report.arch, None);
}

#[test]
fn x86_is_reported_as_its_token() {
    let source = PythonEnvironment {
        arch: Some(Architecture::X86),
        ..PythonEnvironment::default()
    };
    assert_eq!(Environment::from(&source).arch, Some("x86"));
}

#[test]
fn every_field_is_copied() {
    let source = full_source();
    let report = Environment::from(&source);
    assert_eq!(report.display_name, source.display_name);
    assert_eq!(report.name, source.name);
    assert_eq!(report.executable, source.executable);
    assert_eq!(report.category, "pyenv-virtualenv");
    assert_eq!(report.version, source.version);
    assert_eq!(report.prefix, source.prefix);
    assert_eq!(report.project, source.project);
    assert_eq!(report.arch, Some("x86"));
    assert_eq!(report.symlinks, source.symlinks);
    let manager = report.manager.unwrap();
    assert_eq!(manager.tool, "pyenv");
    assert_eq!(manager.executable, PathBuf::from("/usr/bin/pyenv"));
}

#[test]
fn presence_is_preserved_when_all_present() {
    let report = Environment::from(&full_source());
    assert!(report.display_name.is_some());
    assert!(report.name.is_some());
    assert!(report.executable.is_some());
    assert!(report.version.is_some());
    assert!(report.prefix.is_some());
    assert!(report.manager.is_some());
    assert!(report.project.is_some());
    assert!(report.arch.is_some());
    assert!(report.symlinks.is_some());
}

#[test]
fn presence_is_preserved_when_all_absent() {
    let report = Environment::from(&PythonEnvironment::default());
    assert!(report.display_name.is_none());
    assert!(report.name.is_none());
    assert!(report.executable.is_none());
    assert!(report.version.is_none());
    assert!(report.prefix.is_none());
    assert!(report.manager.is_none());
    assert!(report.project.is_none());
    assert!(report.arch.is_none());
    assert!(report.symlinks.is_none());
    assert_eq!(report.category, "unknown");
}

#[test]
fn presence_is_preserved_field_by_field() {
    let full = full_source();
    for field in 0..9 {
        let mut source = PythonEnvironment::default();
        match field {
            0 => source.display_name = full.display_name.clone(),
            1 => source.name = full.name.clone(),
            2 => source.executable = full.executable.clone(),
            3 => source.version = full.version.clone(),
            4 => source.prefix = full.prefix.clone(),
            5 => source.manager = full.manager.clone(),
            6 => source.project = full.project.clone(),
            7 => source.arch = full.arch,
            _ => source.symlinks = full.symlinks.clone(),
        }
        let report = Environment::from(&source);
        let present = [
            report.display_name.is_some(),
            report.name.is_some(),
            report.executable.is_some(),
            report.version.is_some(),
            report.prefix.is_some(),
            report.manager.is_some(),
            report.project.is_some(),
            report.arch.is_some(),
            report.symlinks.is_some(),
        ];
        for (other, is_present) in present.iter().enumerate() {
            assert_eq!(*is_present, other == field);
        }
    }
}

#[test]
fn an_empty_symlink_list_is_still_present() {
    let source = PythonEnvironment {
        symlinks: Some(Vec::new()),
        ..PythonEnvironment::default()
    };
    assert_eq!(Environment::from(&source).symlinks, Some(Vec::new()));
}

#[test]
fn symlinks_keep_their_order() {
    let paths = vec![
        PathBuf::from("/b"),
        PathBuf::from("/a"),
        PathBuf::from("/c"),
        PathBuf::from("/a"),
    ];
    assert_eq!(copy_paths(&paths), paths);
    assert_eq!(copy_paths(&Vec::new()), Vec::<PathBuf>::new());
    let source = PythonEnvironment {
        symlinks: Some(paths.clone()),
        ..PythonEnvironment::default()
    };
    assert_eq!(Environment::from(&source).symlinks, Some(paths));
}

#[test]
fn a_report_survives_changes_to_its_source() {
    let mut source = full_source();
    let report = Environment::from(&source);

    source.display_name = None;
    source.name = Some("other".to_string());
    source.executable = Some(PathBuf::from("/elsewhere/python"));
    source.category = PythonEnvironmentCategory::Conda;
    source.version.as_mut().unwrap().push_str("-changed");
    source.prefix.as_mut().unwrap().push("deeper");
    source.manager.as_mut().unwrap().tool.push_str("-changed");
    source.manager.as_mut().unwrap().executable.push("deeper");
    source.project = None;
    source.arch = Some(Architecture::X64);
    source.symlinks.as_mut().unwrap().clear();

    let untouched = full_source();
    assert_eq!(report.display_name, untouched.display_name);
    assert_eq!(report.name, untouched.name);
    assert_eq!(report.executable, untouched.executable);
    assert_eq!(report.category, "pyenv-virtualenv");
    assert_eq!(report.version, untouched.version);
    assert_eq!(report.prefix, untouched.prefix);
    assert_eq!(report.project, untouched.project);
    assert_eq!(report.arch, Some("x86"));
    assert_eq!(report.symlinks, untouched.symlinks);
    let manager = report.manager.as_ref().unwrap();
    assert_eq!(manager.tool, "pyenv");
    assert_eq!(manager.executable, PathBuf::from("/usr/bin/pyenv"));

    drop(source);
    assert_eq!(report.name, Some("work".to_string()));
}

#[test]
fn a_manager_is_reported_as_found() {
    let source = EnvManager {
        executable: PathBuf::from("/opt/conda/bin/conda"),
        tool: "conda".to_string(),
    };
    let report = Manager::from(&source);
    assert_eq!(report.tool, "conda");
    assert_eq!(report.executable, PathBuf::from("/opt/conda/bin/conda"));
    assert_eq!(report.summary(), "conda, /opt/conda/bin/conda");
}

#[test]
fn the_default_source_knows_nothing() {
    let source = PythonEnvironment::default();
    assert_eq!(source.category, PythonEnvironmentCategory::Unknown);
    assert!(source.display_name.is_none());
    assert!(source.name.is_none());
    assert!(source.executable.is_none());
    assert!(source.version.is_none());
    assert!(source.prefix.is_none());
    assert!(source.manager.is_none());
    assert!(source.project.is_none());
    assert!(source.arch.is_none());
    assert!(source.symlinks.is_none());
}
