use vstd::prelude::*;

verus! {

/// The directories the application reads its configuration from and
/// writes its data to; resolving and merging the files themselves is the
/// surrounding application's business.
#[derive(Debug, Clone)]
pub struct AppConfig {
    pub _data_dir: String,
    pub _config_dir: String,
}

impl Default for AppConfig {
    /// No directories resolved yet.
    fn default() -> (r: Self)
        ensures
            r._data_dir@ == Seq::<char>::empty(),
            r._config_dir@ == Seq::<char>::empty(),
    {
        AppConfig { _data_dir: String::new(), _config_dir: String::new() }
    }
}

} // verus!
