use vstd::prelude::*;

use std::path::PathBuf;

verus! {

/// A path on the file system.
#[verifier::external_type_specification]
#[verifier::external_body]
pub struct ExPathBuf(std::path::PathBuf);

/// The settings of the software horn: the Zenoh configuration file, and
/// whether the horn makes a sound.
pub struct Args {
    config: PathBuf,
    sound: bool,
}

impl Args {
    /// Settings with the given configuration file and sound switch.
    pub fn new(config: PathBuf, sound: bool) -> (args: Args)
        ensures
            args.config_spec() == config,
            args.sound_spec() == sound,
    {
        Args { config, sound }
    }

    /// The Zenoh configuration file.
    pub closed spec fn config_spec(&self) -> PathBuf {
        self.config
    }

    /// Whether the horn makes a sound.
    pub closed spec fn sound_spec(&self) -> bool {
        self.sound
    }

    /// The Zenoh configuration file.
    pub fn config(&self) -> (config: &PathBuf)
        ensures
            *config == self.config_spec(),
    {
        &self.config
    }

    /// Whether the horn makes a sound.
    pub fn sound(&self) -> (sound: bool)
        ensures
            sound == self.sound_spec(),
    {
        self.sound
    }
}

} // verus!
