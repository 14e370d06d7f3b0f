//! Steps that run code: Python scripts and the packages they load.
pub mod package_loader;
pub mod python;

pub use package_loader::{PackageCache, PackageLoader, PackageSource};
pub use python::{PythonStep, PythonStepBuilder};
