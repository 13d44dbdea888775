//! Application metadata: the fixed identity strings and the struct that
//! carries them.

use vstd::prelude::*;

verus! {

/// Application name.
pub fn get_app_name() -> (r: &'static str)
    ensures
        r@ == "DevKit"@,
{
    "DevKit"
}

/// Application version.
pub fn get_app_version() -> (r: &'static str)
    ensures
        r@ == "0.1.0"@,
{
    "0.1.0"
}

/// User-agent string: package name and version.
pub fn get_user_agent() -> (r: &'static str)
    ensures
        r@ == "sanshu/0.1.0"@,
{
    "sanshu/0.1.0"
}

/// Application identity: names, version, provenance.
pub struct AppInfo {
    pub name: String,
    pub name_en: String,
    pub description: String,
    pub version: String,
    pub author: String,
    pub homepage: String,
    pub repository: String,
    pub license: String,
    pub identifier: String,
    pub user_agent: String,
}

impl AppInfo {
    /// Whether the fields hold the application's fixed identity.
    pub open spec fn is_default(&self) -> bool {
        &&& self.name@ == "DevKit"@
        &&& self.name_en@ == "devkit"@
        &&& self.description@ == "Development toolkit for enhanced coding workflow"@
        &&& self.version@ == "0.1.0"@
        &&& self.author@ == "aspect-build"@
        &&& self.homepage@ == "https://github.com/aspect-build/devkit"@
        &&& self.repository@ == "https://github.com/aspect-build/devkit"@
        &&& self.license@ == "MIT"@
        &&& self.identifier@ == "com.aspect.devkit"@
        &&& self.user_agent@ == "sanshu/0.1.0"@
    }

    /// The full application title: the name, then the version after a `v`.
    pub fn get_full_title(&self) -> (r: String)
        ensures
            r@ == self.name@ + " v"@ + self.version@,
    {
        let mut out = String::from_str(self.name.as_str());
        out.append(" v");
        out.append(self.version.as_str());
        out
    }

    /// The window title: the application name.
    pub fn get_window_title(&self) -> (r: String)
        ensures
            r@ == self.name@,
    {
        String::from_str(self.name.as_str())
    }
}

impl Default for AppInfo {
    /// The application's fixed identity.
    fn default() -> (r: AppInfo)
        ensures
            r.is_default(),
    {
        AppInfo {
            name: String::from_str("DevKit"),
            name_en: String::from_str("devkit"),
            description: String::from_str("Development toolkit for enhanced coding workflow"),
            version: String::from_str("0.1.0"),
            author: String::from_str("aspect-build"),
            homepage: String::from_str("https://github.com/aspect-build/devkit"),
            repository: String::from_str("https://github.com/aspect-build/devkit"),
            license: String::from_str("MIT"),
            identifier: String::from_str("com.aspect.devkit"),
            user_agent: String::from_str("sanshu/0.1.0"),
        }
    }
}

/// The application's identity record.
pub fn get_app_info() -> (r: AppInfo)
    ensures
        r.is_default(),
{
    AppInfo::default()
}

} // verus!
