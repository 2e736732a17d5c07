//! Display names for applications that are known by their bundle identifier.

use vstd::prelude::*;
use crate::text::same_text;

verus! {

/// The table of known applications: bundle identifier and display name.
pub open spec fn known_apps() -> Seq<(Seq<char>, Seq<char>)> {
    seq![
        ("com.microsoft.VSCode"@, "Visual Studio Code"@),
        ("com.something.slack"@, "Slack"@),
    ]
}

/// The name of the first entry of `table` whose identifier is `key`.
pub open spec fn lookup_in(table: Seq<(Seq<char>, Seq<char>)>, key: Seq<char>) -> Option<
    Seq<char>,
>
    decreases table.len(),
{
    if table.len() == 0 {
        None
    } else if table[0].0 == key {
        Some(table[0].1)
    } else {
        lookup_in(table.drop_first(), key)
    }
}

/// The display name that a known bundle identifier stands for, if any.
pub open spec fn known_display_name(bundle_id: Seq<char>) -> Option<Seq<char>> {
    lookup_in(known_apps(), bundle_id)
}

/// The name under which an application is shown.
pub open spec fn display_name(app_name: Seq<char>, bundle_id: Seq<char>) -> Seq<char> {
    match known_display_name(bundle_id) {
        Some(name) => name,
        None => app_name,
    }
}

/// The entries of the table of known applications.
fn known_app_entries() -> (r: Vec<(&'static str, &'static str)>)
    ensures
        r@.len() == known_apps().len(),
        forall|i: int|
            0 <= i < r@.len() ==> (#[trigger] r@[i]).0@ == known_apps()[i].0 && r@[i].1@
                == known_apps()[i].1,
{
    let r = vec![
        ("com.microsoft.VSCode", "Visual Studio Code"),
        ("com.something.slack", "Slack"),
    ];
    proof {
        reveal_strlit("com.microsoft.VSCode");
        reveal_strlit("Visual Studio Code");
        reveal_strlit("com.something.slack");
        reveal_strlit("Slack");
    }
    r
}

/// Looks a bundle identifier up in the table of known applications.
pub fn lookup_display_name(bundle_id: &str) -> (r: Option<String>)
    ensures
        match r {
            Some(s) => known_display_name(bundle_id@) == Some(s@),
            None => known_display_name(bundle_id@) is None,
        },
{
    let table = known_app_entries();
    let mut i: usize = 0;
    assert(known_apps().skip(0) =~= known_apps());
    while i < table.len()
        invariant
            table@.len() == known_apps().len(),
            forall|k: int|
                0 <= k < table@.len() ==> (#[trigger] table@[k]).0@ == known_apps()[k].0
                    && table@[k].1@ == known_apps()[k].1,
            i <= table@.len(),
            lookup_in(known_apps(), bundle_id@) == lookup_in(known_apps().skip(i as int), bundle_id@),
        decreases table@.len() - i,
    {
        proof {
            let rest = known_apps().skip(i as int);
            assert(rest[0] == known_apps()[i as int]);
            assert(rest.drop_first() =~= known_apps().skip(i + 1));
        }
        if same_text(bundle_id, table[i].0) {
            return Some(String::from_str(table[i].1));
        }
        i = i + 1;
    }
    None
}

/// The name to show for an application: the known name of its bundle
/// identifier where there is one, else the application's own name.
pub fn interpret_app_name(app_name: &str, bundle_id: &str) -> (r: String)
    ensures
        r@ == display_name(app_name@, bundle_id@),
{
    match lookup_display_name(bundle_id) {
        Some(name) => name,
        None => String::from_str(app_name),
    }
}

} // verus!
