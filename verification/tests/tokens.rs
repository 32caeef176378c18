use pet_reporter::arch::{architecture_to_string, Architecture};
use pet_reporter::category::{python_category_to_string, PythonEnvironmentCategory};

fn all_categories() -> Vec<PythonEnvironmentCategory> {
    vec![
        PythonEnvironmentCategory::System,
        PythonEnvironmentCategory::Homebrew,
        PythonEnvironmentCategory::Conda,
        PythonEnvironmentCategory::Pyenv,
        PythonEnvironmentCategory::PyenvVirtualEnv,
        PythonEnvironmentCategory::WindowsStore,
        PythonEnvironmentCategory::WindowsRegistry,
        PythonEnvironmentCategory::Pipenv,
        PythonEnvironmentCategory::VirtualEnvWrapper,
        PythonEnvironmentCategory::Venv,
        PythonEnvironmentCategory::VirtualEnv,
        PythonEnvironmentCategory::Unknown,
    ]
}

#[test]
fn category_tokens_are_frozen() {
    let expected = vec![
        "system",
        "homebrew",
        "conda",
        "pyenv",
        "pyenv-virtualenv",
        "windows-store",
        "windows-registry",
        "pipenv",
        "virtualenvwrapper",
        "venv",
        "virtualenv",
        "unknown",
    ];
    let categories = all_categories();
    assert_eq!(categories.len(), expected.len());
    for (category, token) in categories.iter().zip(expected.iter()) {
        assert_eq!(python_category_to_string(category), *token);
    }
}

#[test]
fn architecture_tokens_are_frozen() {
    assert_eq!(architecture_to_string(&Architecture::X64), "x64");
    assert_eq!(architecture_to_string(&Architecture::X86), "x86");
}

#[test]
fn every_category_has_a_token() {
    for category in all_categories() {
        assert!(!python_category_to_string(&category).is_empty());
    }
}

#[test]
fn every_architecture_has_a_token() {
    for arch in [Architecture::X64, Architecture::X86] {
        assert!(!architecture_to_string(&arch).is_empty());
    }
}

#[test]
fn category_tokens_differ_from_each_other() {
    let categories = all_categories();
    for (i, a) in categories.iter().enumerate() {
        for (j, b) in categories.iter().enumerate() {
            assert_eq!(
                python_category_to_string(a) == python_category_to_string(b),
                i == j
            );
        }
    }
}

#[test]
fn architecture_tokens_differ_from_each_other() {
    assert_ne!(
        architecture_to_string(&Architecture::X64),
        architecture_to_string(&Architecture::X86)
    );
}

#[test]
fn pyenv_virtualenv_is_spelt_with_a_hyphen() {
    let token = python_category_to_string(&PythonEnvironmentCategory::PyenvVirtualEnv);
    assert_eq!(token, "pyenv-virtualenv");
    assert!(!token.contains('_'));
}

#[test]
fn an_unclassified_environment_is_unknown() {
    assert_eq!(
        PythonEnvironmentCategory::default(),
        PythonEnvironmentCategory::Unknown
    );
    assert_eq!(
        python_category_to_string(&PythonEnvironmentCategory::default()),
        "unknown"
    );
}
