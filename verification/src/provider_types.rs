//! The states a trick can be in, each as a type of its own, and the abilities that
//! go with them.
use vstd::prelude::*;

verus! {

pub struct DefaultState;

pub struct InstalledState;

pub struct InstallableState;

pub struct RunnableState;

pub struct RunningState;

pub struct AddableToSteamState;

/// The error of an ability that is not there yet.
#[derive(Debug)]
pub struct PLACEHOLDER {}

/// What can be run.
pub trait Runnable {
    fn run(&self) -> Result<(), PLACEHOLDER>;
}

/// What runs, and can be killed.
pub trait Running {
    fn kill(&self) -> Result<(), PLACEHOLDER>;
}

/// What can be installed.
pub trait Installable {
    fn install(&self) -> Result<(), PLACEHOLDER>;
}

/// What is installed.
pub trait Installed {
    fn update(&self) -> Result<(), PLACEHOLDER>;

    fn remove(&self) -> Result<(), PLACEHOLDER>;

    fn force_reinstall(&self) -> Result<(), PLACEHOLDER>;
}

/// What can be added to Steam.
pub trait AddableToSteam {
    fn add_to_steam(&self) -> Result<(), PLACEHOLDER>;
}

} // verus!
