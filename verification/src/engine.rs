//! The build engine: the entry points that compile, package and install a
//! project.
use vstd::prelude::*;
use crate::packaging::nsis::nsis_script_spec;

verus! {

/// The build engine of the tool.
pub struct BuildEngine;

impl BuildEngine {
    /// The NSIS script of a Windows installer, as
    /// `packaging::nsis::generate_nsis_script` writes it.
    pub fn generate_nsis_script(
        app_name: &str,
        app_version: &str,
        vendor: &str,
        icon_path: Option<&str>,
        staging_dir: &str,
        exe_name: &str,
        add_to_path: bool,
        desktop_shortcut: bool,
        start_menu: bool,
        scope: &str,
        license_path: Option<&str>,
        output_installer: &str,
    ) -> (s: String)
        ensures
            s@ == nsis_script_spec(
                app_name@,
                app_version@,
                vendor@,
                match icon_path {
                    Some(i) => Some(i@),
                    None => None,
                },
                staging_dir@,
                exe_name@,
                add_to_path,
                desktop_shortcut,
                start_menu,
                scope@,
                match license_path {
                    Some(i) => Some(i@),
                    None => None,
                },
                output_installer@,
            ),
    {
        crate::packaging::nsis::generate_nsis_script(
            app_name,
            app_version,
            vendor,
            icon_path,
            staging_dir,
            exe_name,
            add_to_path,
            desktop_shortcut,
            start_menu,
            scope,
            license_path,
            output_installer,
        )
    }
}

} // verus!
