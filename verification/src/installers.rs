//! Classification of installer files by platform: which platforms have an
//! installer present, judged by the file extension of the lowercased name.
//! The directory walk that yields the names is I/O; the judgment is verified.

use vstd::prelude::*;

use crate::api::InstallerInfo;
use crate::listing::lower_key;
use crate::listing::lowercase_bytes;

verus! {

/// Whether `v` ends in `suffix`.
pub open spec fn ends_with(v: Seq<u8>, suffix: Seq<u8>) -> bool {
    v.len() >= suffix.len() && v.skip(v.len() - suffix.len()) == suffix
}

/// The UTF-8 bytes of ".exe".
pub open spec fn exe_suffix() -> Seq<u8> {
    seq![46u8, 101u8, 120u8, 101u8]
}

/// The UTF-8 bytes of ".msi".
pub open spec fn msi_suffix() -> Seq<u8> {
    seq![46u8, 109u8, 115u8, 105u8]
}

/// The UTF-8 bytes of ".dmg".
pub open spec fn dmg_suffix() -> Seq<u8> {
    seq![46u8, 100u8, 109u8, 103u8]
}

/// The UTF-8 bytes of ".apk".
pub open spec fn apk_suffix() -> Seq<u8> {
    seq![46u8, 97u8, 112u8, 107u8]
}

/// A lowercased file name names a Windows installer.
pub open spec fn is_windows_key(k: Seq<u8>) -> bool {
    ends_with(k, exe_suffix()) || ends_with(k, msi_suffix())
}

/// A lowercased file name names a macOS installer.
pub open spec fn is_macos_key(k: Seq<u8>) -> bool {
    ends_with(k, dmg_suffix())
}

/// A lowercased file name names an Android installer.
pub open spec fn is_android_key(k: Seq<u8>) -> bool {
    ends_with(k, apk_suffix())
}

/// The name at position `i` carries a Windows installer extension.
pub open spec fn windows_at(names: Seq<String>, i: int) -> bool {
    is_windows_key(lower_key(names[i]@))
}

/// The name at position `i` carries a macOS installer extension.
pub open spec fn macos_at(names: Seq<String>, i: int) -> bool {
    is_macos_key(lower_key(names[i]@))
}

/// The name at position `i` carries an Android installer extension.
pub open spec fn android_at(names: Seq<String>, i: int) -> bool {
    is_android_key(lower_key(names[i]@))
}

/// The list holds a string reading `p`.
pub open spec fn has_platform(avail: Seq<String>, p: Seq<char>) -> bool {
    exists|i: int| 0 <= i < avail.len() && avail[i]@ == p
}

proof fn lemma_has_platform_push(avail: Seq<String>, x: String, p: Seq<char>)
    ensures
        has_platform(avail.push(x), p) == (has_platform(avail, p) || x@ == p),
{
    if has_platform(avail, p) {
        let i = choose|i: int| 0 <= i < avail.len() && avail[i]@ == p;
        assert(avail.push(x)[i]@ == p);
    }
    if x@ == p {
        assert(avail.push(x)[avail.len() as int]@ == p);
    }
    if has_platform(avail.push(x), p) {
        let i = choose|i: int| 0 <= i < avail.push(x).len() && avail.push(x)[i]@ == p;
        if i < avail.len() {
            assert(avail[i]@ == p);
        }
    }
}

/// Decides whether `v` ends in `suffix`.
fn ends_with_bytes(v: &Vec<u8>, suffix: &Vec<u8>) -> (r: bool)
    ensures
        r == ends_with(v@, suffix@),
{
    if suffix.len() > v.len() {
        return false;
    }
    let off = v.len() - suffix.len();
    let mut i: usize = 0;
    while i < suffix.len()
        invariant
            off == v@.len() - suffix@.len(),
            i <= suffix@.len() <= v@.len(),
            v@.len() <= usize::MAX,
            forall|k: int| 0 <= k < i ==> v@[off + k] == suffix@[k],
        decreases suffix@.len() - i,
    {
        if v[off + i] != suffix[i] {
            proof {
                assert(v@.skip(off as int)[i as int] != suffix@[i as int]);
            }
            return false;
        }
        i = i + 1;
    }
    proof {
        assert(v@.skip(off as int) =~= suffix@);
    }
    true
}

/// Whether a platform name is one installers can be asked for; any other
/// request is invalid and rejected before any directory is read.
pub fn is_known_platform(platform: &String) -> (r: bool)
    ensures
        r == (platform@ == "windows"@ || platform@ == "macos"@ || platform@ == "android"@),
{
    let windows = "windows".to_owned();
    let macos = "macos".to_owned();
    let android = "android".to_owned();
    platform.eq(&windows) || platform.eq(&macos) || platform.eq(&android)
}

/// Whether a file name, lowercased, ends in an extension of the asked-for
/// platform: "exe" or "msi" for windows, "dmg" for macos, "apk" for android.
/// An unknown platform matches nothing.
pub fn matches_platform(name: &String, platform: &String) -> (r: bool)
    ensures
        platform@ == "windows"@ ==> r == (ends_with(lower_key(name@), exe_suffix().drop_first())
            || ends_with(lower_key(name@), msi_suffix().drop_first())),
        platform@ == "macos"@ ==> r == ends_with(lower_key(name@), dmg_suffix().drop_first()),
        platform@ == "android"@ ==> r == ends_with(lower_key(name@), apk_suffix().drop_first()),
        (platform@ != "windows"@ && platform@ != "macos"@ && platform@ != "android"@) ==> r
            == false,
{
    proof {
        reveal_strlit("windows");
        reveal_strlit("macos");
        reveal_strlit("android");
        assert("windows"@.len() == 7);
        assert("macos"@.len() == 5);
        assert("android"@.len() == 7);
        assert("windows"@[0] != "android"@[0]);
        assert("windows"@ != "android"@);
        assert(exe_suffix().drop_first() =~= seq![101u8, 120u8, 101u8]);
        assert(msi_suffix().drop_first() =~= seq![109u8, 115u8, 105u8]);
        assert(dmg_suffix().drop_first() =~= seq![100u8, 109u8, 103u8]);
        assert(apk_suffix().drop_first() =~= seq![97u8, 112u8, 107u8]);
    }
    let key = lowercase_bytes(name);
    let windows = "windows".to_owned();
    let macos = "macos".to_owned();
    let android = "android".to_owned();
    if platform.eq(&windows) {
        let exe: Vec<u8> = vec![101u8, 120u8, 101u8];
        let msi: Vec<u8> = vec![109u8, 115u8, 105u8];
        ends_with_bytes(&key, &exe) || ends_with_bytes(&key, &msi)
    } else if platform.eq(&macos) {
        let dmg: Vec<u8> = vec![100u8, 109u8, 103u8];
        ends_with_bytes(&key, &dmg)
    } else if platform.eq(&android) {
        let apk: Vec<u8> = vec![97u8, 112u8, 107u8];
        ends_with_bytes(&key, &apk)
    } else {
        false
    }
}

/// Lists the platforms for which an installer file is present among `names`,
/// each platform once: "windows" for a name ending in ".exe" or ".msi",
/// "macos" for ".dmg", "android" for ".apk", all judged case-insensitively.
/// A platform is listed when its extension was seen, and only then; the list
/// follows the order in which the names first matched.
pub fn classify_installers(names: &Vec<String>) -> (info: InstallerInfo)
    ensures
        has_platform(info.available@, "windows"@) <==> exists|i: int|
            0 <= i < names@.len() && #[trigger] windows_at(names@, i),
        has_platform(info.available@, "macos"@) <==> exists|i: int|
            0 <= i < names@.len() && #[trigger] macos_at(names@, i),
        has_platform(info.available@, "android"@) <==> exists|i: int|
            0 <= i < names@.len() && #[trigger] android_at(names@, i),
        forall|p: int, q: int|
            0 <= p < q < info.available@.len() ==> info.available@[p]@ != info.available@[q]@,
{
    proof {
        reveal_strlit("windows");
        reveal_strlit("macos");
        reveal_strlit("android");
    }
    let exe: Vec<u8> = vec![46u8, 101u8, 120u8, 101u8];
    let msi: Vec<u8> = vec![46u8, 109u8, 115u8, 105u8];
    let dmg: Vec<u8> = vec![46u8, 100u8, 109u8, 103u8];
    let apk: Vec<u8> = vec![46u8, 97u8, 112u8, 107u8];
    let mut available: Vec<String> = Vec::new();
    let mut have_windows = false;
    let mut have_macos = false;
    let mut have_android = false;
    let mut n: usize = 0;
    while n < names.len()
        invariant
            exe@ == exe_suffix(),
            msi@ == msi_suffix(),
            dmg@ == dmg_suffix(),
            apk@ == apk_suffix(),
            n <= names@.len(),
            have_windows <==> exists|i: int| 0 <= i < n && #[trigger] windows_at(names@, i),
            have_macos <==> exists|i: int| 0 <= i < n && #[trigger] macos_at(names@, i),
            have_android <==> exists|i: int| 0 <= i < n && #[trigger] android_at(names@, i),
            has_platform(available@, "windows"@) == have_windows,
            has_platform(available@, "macos"@) == have_macos,
            has_platform(available@, "android"@) == have_android,
            forall|p: int, q: int|
                0 <= p < q < available@.len() ==> available@[p]@ != available@[q]@,
            forall|p: int|
                0 <= p < available@.len() ==> (available@[p]@ == "windows"@ || available@[p]@
                    == "macos"@ || available@[p]@ == "android"@),
        decreases names@.len() - n,
    {
        proof {
            reveal_strlit("windows");
            reveal_strlit("macos");
            reveal_strlit("android");
            assert("windows"@.len() == 7);
            assert("macos"@.len() == 5);
            assert("android"@.len() == 7);
            assert("windows"@ != "macos"@);
            assert("android"@ != "macos"@);
            assert("windows"@[0] != "android"@[0]);
            assert("windows"@ != "android"@);
        }
        let key = lowercase_bytes(&names[n]);
        if (ends_with_bytes(&key, &exe) || ends_with_bytes(&key, &msi)) && !have_windows {
            let s = "windows".to_owned();
            let ghost sg = s;
            let ghost prev = available@;
            available.push(s);
            have_windows = true;
            proof {
                assert(windows_at(names@, n as int));
                lemma_has_platform_push(prev, sg, "windows"@);
                lemma_has_platform_push(prev, sg, "macos"@);
                lemma_has_platform_push(prev, sg, "android"@);
            }
        } else if ends_with_bytes(&key, &dmg) && !have_macos {
            let s = "macos".to_owned();
            let ghost sg = s;
            let ghost prev = available@;
            available.push(s);
            have_macos = true;
            proof {
                assert(macos_at(names@, n as int));
                lemma_has_platform_push(prev, sg, "windows"@);
                lemma_has_platform_push(prev, sg, "macos"@);
                lemma_has_platform_push(prev, sg, "android"@);
            }
        } else if ends_with_bytes(&key, &apk) && !have_android {
            let s = "android".to_owned();
            let ghost sg = s;
            let ghost prev = available@;
            available.push(s);
            have_android = true;
            proof {
                assert(android_at(names@, n as int));
                lemma_has_platform_push(prev, sg, "windows"@);
                lemma_has_platform_push(prev, sg, "macos"@);
                lemma_has_platform_push(prev, sg, "android"@);
            }
        }
        n = n + 1;
    }
    InstallerInfo { available }
}

} // verus!
