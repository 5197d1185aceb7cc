//! Checks that the README's installation block and quick start stay in step
//! with the package.
//!
//! Tests cannot read files here, so the installation block and the manifest
//! lines that it must agree with are held as text beside the checks.

use qubit_rayon_batch::{BatchExecutionMode, RayonBatchExecutor};

/// The installation block of README.md and of extras/README.zh_CN.md.
const README_INSTALLATION: &str = "[dependencies]\nqubit-batch = \"=0.14.3\"\nqubit-rayon-batch = \"0.10\"\n";

/// The package version and the qubit-batch requirement of Cargo.toml.
const CARGO_TOML_LINES: &str = "version = \"0.10.0\"\nqubit-batch = \"=0.14.3\"\n";

#[test]
fn test_readme_dependency_version_matches_cargo_toml() {
    let package_version =
        extract_package_version(CARGO_TOML_LINES).expect("Failed to extract version from Cargo.toml");
    let cargo_qubit_batch = extract_dependency_version(CARGO_TOML_LINES, "qubit-batch")
        .expect("Failed to extract qubit-batch from Cargo.toml");
    let readme_rayon = extract_dependency_version(README_INSTALLATION, "qubit-rayon-batch")
        .expect("Failed to extract qubit-rayon-batch from README.md");
    let readme_batch = extract_dependency_version(README_INSTALLATION, "qubit-batch")
        .expect("Failed to extract qubit-batch from README.md");

    assert!(
        readme_version_documents_same_release(&readme_rayon, &package_version),
        "README qubit-rayon-batch ({readme_rayon:?}) should match package version {package_version:?}"
    );
    assert_eq!(readme_batch, cargo_qubit_batch);
    // The linked qubit-batch exposes the termination API of the pinned line.
    assert!(qubit_batch::BatchTermination::Finished == qubit_batch::BatchTermination::Finished);
}

#[test]
fn test_readme_mentions_current_executor_type() {
    // The README quick start, which names the current executor type.
    let executor = RayonBatchExecutor::builder(Some(4))
        .sequential_threshold(1)
        .build()
        .expect("rayon batch executor should be created");

    assert_eq!(executor.thread_count(), 4);
    assert_eq!(executor.execution_mode(8, false), BatchExecutionMode::Parallel { worker_count: 4 });
    assert_eq!(executor.execution_mode(1, false), BatchExecutionMode::Sequential);
}

/// Extracts the first package version entry from manifest content.
fn extract_package_version(content: &str) -> Option<String> {
    for line in content.lines() {
        if let Some(value) = line.strip_prefix("version = \"") {
            return value.strip_suffix('"').map(String::from);
        }
    }
    None
}

/// Reads a `name = "..."` dependency line (first match).
fn extract_dependency_version(content: &str, name: &str) -> Option<String> {
    let prefix = format!("{name} = \"");
    for line in content.lines() {
        if let Some(value) = line.trim().strip_prefix(prefix.as_str()) {
            return value.strip_suffix('"').map(String::from);
        }
    }
    None
}

/// A README may document a minor line (`0.4`) while the crate uses a patch (`0.4.1`).
fn readme_version_documents_same_release(readme: &str, package: &str) -> bool {
    readme == package || package.starts_with(&format!("{readme}."))
}
