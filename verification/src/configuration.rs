use vstd::prelude::*;

verus! {

/// Startup configuration for the hosting application: where the document
/// summary file lives and where the rendered note files live.
///
/// Constructed once at startup (for instance from command-line arguments)
/// and passed by reference into the collaborators that need it; the search
/// core itself holds no global state.
pub struct Configuration {
    pub summary_file_path: String,
    pub html_dir_path: String,
}

impl Configuration {
    /// Packs the two paths into a configuration value, unchanged.
    pub fn new(summary_file_path: String, html_dir_path: String) -> (r: Configuration)
        ensures
            r.summary_file_path@ == summary_file_path@,
            r.html_dir_path@ == html_dir_path@,
    {
        Configuration { summary_file_path, html_dir_path }
    }
}

} // verus!
