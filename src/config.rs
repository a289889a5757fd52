use vstd::prelude::*;

verus! {

/// What one program's deployment is made of.
pub struct Config {
    /// Identifier of the program; names the lock and the three units.
    pub program_name: String,
    /// The executable whose content is watched for change.
    pub program_path: String,
    pub update: Update,
    pub run: Run,
}

/// The recurring update step.
pub struct Update {
    /// Period of the update timer, in seconds.
    pub interval: u32,
    /// Shell commands run in order on every update.
    pub commands: Vec<String>,
}

/// The long-running step.
pub struct Run {
    /// Shell commands run in order by the run service.
    pub commands: Vec<String>,
}

} // verus!
