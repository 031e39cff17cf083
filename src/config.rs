//! Where the save file lives on each platform.
use vstd::prelude::*;

use crate::text::str_eq;

verus! {

/// Why no configuration directory can be named.
#[derive(Clone, Copy, Debug, PartialEq, Eq, Structural)]
pub enum ConfigError {
    /// iOS and Android are not supported.
    UnsupportedPlatform,
    /// On Windows, `APPDATA` is not set.
    AppDataUnset,
}

/// The configuration directory on the platform `os` (as `std::env::consts::OS`
/// names it), given the value of `APPDATA`. A leading `~` stands for the user's
/// home directory and is left for the caller to expand.
pub open spec fn config_directory_spec(os: Seq<char>, appdata: Option<Seq<char>>) -> Result<
    Seq<char>,
    ConfigError,
> {
    if os == "ios"@ || os == "android"@ {
        Err(ConfigError::UnsupportedPlatform)
    } else if os == "macos"@ {
        Ok("~/Library/Preferences/org.jd-develop.geodesie/"@)
    } else if os == "windows"@ {
        match appdata {
            Some(a) => Ok(a + "\\jd-develop\\geodesie"@),
            None => Err(ConfigError::AppDataUnset),
        }
    } else {
        Ok("~/.config/jd-develop/geodesie"@)
    }
}

/// The configuration directory on the platform `os`, given the value of
/// `APPDATA` where it is set.
pub fn config_directory(os: &str, appdata: Option<&str>) -> (r: Result<String, ConfigError>)
    ensures
        ({
            let a = match appdata {
                Some(s) => Some(s@),
                None => None,
            };
            match config_directory_spec(os@, a) {
                Ok(p) => r matches Ok(s) && s@ == p,
                Err(e) => r == Err::<String, ConfigError>(e),
            }
        }),
{
    if str_eq(os, "ios") || str_eq(os, "android") {
        Err(ConfigError::UnsupportedPlatform)
    } else if str_eq(os, "macos") {
        Ok(String::from_str("~/Library/Preferences/org.jd-develop.geodesie/"))
    } else if str_eq(os, "windows") {
        match appdata {
            Some(a) => {
                let mut p = String::from_str(a);
                p.append("\\jd-develop\\geodesie");
                Ok(p)
            },
            None => Err(ConfigError::AppDataUnset),
        }
    } else {
        Ok(String::from_str("~/.config/jd-develop/geodesie"))
    }
}

} // verus!
