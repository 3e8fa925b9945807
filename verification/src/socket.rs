//! Where the daemon's socket lives, decided from the environment.

use vstd::prelude::*;

verus! {

/// A socket location: a base directory, taken from the environment, and the
/// path components below it, the last of which is the socket's file name.
#[derive(Debug)]
pub struct SocketLocation {
    pub base: Vec<u8>,
    pub components: Vec<String>,
}

/// The views of `names`, in order.
pub open spec fn component_views(names: Seq<String>) -> Seq<Seq<char>> {
    names.map_values(|n: String| n@)
}

/// The components below `GTTY_RUNTIME_DIR`.
pub open spec fn runtime_dir_components() -> Seq<Seq<char>> {
    seq!["gttyd.sock"@]
}

/// The components below `XDG_RUNTIME_DIR`.
pub open spec fn xdg_runtime_dir_components() -> Seq<Seq<char>> {
    seq!["gtty"@, "gttyd.sock"@]
}

/// The components below `HOME`, on macOS and elsewhere.
pub open spec fn home_components(macos: bool) -> Seq<Seq<char>> {
    if macos {
        seq!["Library"@, "Caches"@, "com.gtty.terminal"@, "gttyd.sock"@]
    } else {
        seq![".cache"@, "gtty"@, "gttyd.sock"@]
    }
}

/// Whether `location` is `base` followed by `components`.
pub open spec fn is_location(location: SocketLocation, base: Seq<u8>, components: Seq<Seq<char>>) -> bool {
    location.base@ == base && component_views(location.components@) == components
}

fn components_of(names: &[&str]) -> (v: Vec<String>)
    ensures
        v@.len() == names@.len(),
        forall|i: int| 0 <= i < names@.len() ==> (#[trigger] v@[i])@ == names@[i]@,
{
    let mut v: Vec<String> = Vec::new();
    let mut i: usize = 0;
    while i < names.len()
        invariant
            0 <= i <= names@.len(),
            v@.len() == i,
            forall|k: int| 0 <= k < i ==> (#[trigger] v@[k])@ == names@[k]@,
        decreases names@.len() - i,
    {
        v.push(String::from_str(names[i]));
        i = i + 1;
    }
    v
}

/// The daemon socket location shared by the native UI clients, given the
/// values of `GTTY_RUNTIME_DIR`, `XDG_RUNTIME_DIR` and `HOME`, in that order
/// of precedence, and whether the platform is macOS; `None` when all three
/// are unset.
pub fn socket_location(
    runtime_dir: Option<Vec<u8>>,
    xdg_runtime_dir: Option<Vec<u8>>,
    home: Option<Vec<u8>>,
    macos: bool,
) -> (location: Option<SocketLocation>)
    ensures
        match (runtime_dir, xdg_runtime_dir, home) {
            (Some(dir), _, _) => location matches Some(l) && is_location(
                l,
                dir@,
                runtime_dir_components(),
            ),
            (None, Some(dir), _) => location matches Some(l) && is_location(
                l,
                dir@,
                xdg_runtime_dir_components(),
            ),
            (None, None, Some(dir)) => location matches Some(l) && is_location(
                l,
                dir@,
                home_components(macos),
            ),
            (None, None, None) => location is None,
        },
{
    proof {
        reveal_strlit("gttyd.sock");
        reveal_strlit("gtty");
        reveal_strlit("Library");
        reveal_strlit("Caches");
        reveal_strlit("com.gtty.terminal");
        reveal_strlit(".cache");
    }
    let (base, components) = match (runtime_dir, xdg_runtime_dir, home) {
        (Some(dir), _, _) => (dir, components_of(&["gttyd.sock"])),
        (None, Some(dir), _) => (dir, components_of(&["gtty", "gttyd.sock"])),
        (None, None, Some(dir)) => {
            if macos {
                (dir, components_of(&["Library", "Caches", "com.gtty.terminal", "gttyd.sock"]))
            } else {
                (dir, components_of(&[".cache", "gtty", "gttyd.sock"]))
            }
        },
        (None, None, None) => {
            return None;
        },
    };
    let location = SocketLocation { base, components };
    proof {
        assert(component_views(location.components@) =~= match (runtime_dir, xdg_runtime_dir, home) {
            (Some(_), _, _) => runtime_dir_components(),
            (None, Some(_), _) => xdg_runtime_dir_components(),
            _ => home_components(macos),
        });
    }
    Some(location)
}

} // verus!
