//! The platform-specific candidate paths for the game's mods folder. The
//! paths are fixed per platform and user name; probing the filesystem and
//! creating the folder stay with the caller, which treats the result as a
//! best-effort hint only.
use vstd::prelude::*;

verus! {

/// The platform the client runs on, as far as the directory heuristic
/// distinguishes it.
#[derive(Clone, Copy, Debug, PartialEq, Eq, Structural)]
pub enum Platform {
    Windows,
    Linux,
    Other,
}

/// The candidate game directory and mods subfolder for a platform and user
/// name, when the platform is recognized.
pub open spec fn spec_minecraft_dirs(platform: Platform, user: Seq<char>) -> Option<
    (Seq<char>, Seq<char>),
> {
    match platform {
        Platform::Windows => Some(
            (
                "C:/Users/"@ + user + "/AppData/Roaming/.minecraft"@,
                "C:/Users/"@ + user + "/AppData/Roaming/.minecraft/mods"@,
            ),
        ),
        Platform::Linux => Some(("~/.minecraft"@, "~/.minecraft/mods"@)),
        Platform::Other => None,
    }
}

/// Builds the candidate game directory and mods subfolder paths.
pub fn minecraft_dir_candidates(platform: Platform, user: &str) -> (r: Option<(String, String)>)
    ensures
        match r {
            Some(p) => spec_minecraft_dirs(platform, user@) == Some((p.0@, p.1@)),
            None => spec_minecraft_dirs(platform, user@) is None,
        },
{
    match platform {
        Platform::Windows => {
            let mut base = String::from_str("C:/Users/");
            base.append(user);
            base.append("/AppData/Roaming/.minecraft");
            let mut mods = String::from_str("C:/Users/");
            mods.append(user);
            mods.append("/AppData/Roaming/.minecraft/mods");
            proof {
                assert(base@ =~= "C:/Users/"@ + user@ + "/AppData/Roaming/.minecraft"@);
                assert(mods@ =~= "C:/Users/"@ + user@ + "/AppData/Roaming/.minecraft/mods"@);
            }
            Some((base, mods))
        },
        Platform::Linux => Some(
            (String::from_str("~/.minecraft"), String::from_str("~/.minecraft/mods")),
        ),
        Platform::Other => None,
    }
}

} // verus!
