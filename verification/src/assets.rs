//! Files that ship with the application.
use vstd::prelude::*;

verus! {

/// The path of the application icon: `icon.png` in the package directory.
pub fn app_icon_path(package_dir: &str) -> (r: String)
    ensures
        r@ == package_dir@ + "/icon.png"@,
{
    let mut s = package_dir.to_owned();
    s.append("/icon.png");
    s
}

} // verus!
