//! Which input device the microphone stream opens.

use vstd::prelude::*;

verus! {

/// The name of the microphone to use: the clamshell microphone when the
/// laptop is closed and one is configured, else the selected microphone
/// (none: the system default).
pub open spec fn spec_effective_microphone_name(
    clamshell: Option<bool>,
    clamshell_microphone: Option<String>,
    selected_microphone: Option<String>,
) -> Option<String> {
    if clamshell == Some(true) && clamshell_microphone is Some {
        clamshell_microphone
    } else {
        selected_microphone
    }
}

/// The microphone choice: with the lid not known to be closed, the selected
/// microphone (none: the system default) whatever the clamshell microphone
/// is; with the lid closed, the clamshell microphone if one is configured,
/// else the selected one.
pub proof fn lemma_microphone_choice(
    clamshell: Option<bool>,
    clamshell_microphone: Option<String>,
    selected_microphone: Option<String>,
)
    ensures
        clamshell != Some(true) ==> spec_effective_microphone_name(
            clamshell,
            clamshell_microphone,
            selected_microphone,
        ) == selected_microphone,
        clamshell == Some(true) && clamshell_microphone is Some ==> spec_effective_microphone_name(
            clamshell,
            clamshell_microphone,
            selected_microphone,
        ) == clamshell_microphone,
        clamshell == Some(true) && clamshell_microphone is None ==> spec_effective_microphone_name(
            clamshell,
            clamshell_microphone,
            selected_microphone,
        ) == selected_microphone,
{
}

/// Picks the configured microphone. `clamshell` is whether the lid is
/// closed, or none when that could not be told (treated as open).
pub fn effective_microphone_name(
    clamshell: Option<bool>,
    clamshell_microphone: &Option<String>,
    selected_microphone: &Option<String>,
) -> (name: Option<String>)
    ensures
        name == spec_effective_microphone_name(
            clamshell,
            *clamshell_microphone,
            *selected_microphone,
        ),
{
    let closed = match clamshell {
        Some(c) => c,
        None => false,
    };
    if closed && clamshell_microphone.is_some() {
        clamshell_microphone.clone()
    } else {
        selected_microphone.clone()
    }
}

/// The position of the first device called `name` among `device_names`.
pub fn find_device(device_names: &Vec<String>, name: &String) -> (found: Option<usize>)
    ensures
        found matches Some(i) ==> i < device_names@.len() && device_names@[i as int]@ == name@
            && forall|j: int| 0 <= j < i ==> device_names@[j]@ != name@,
        found is None ==> forall|j: int|
            0 <= j < device_names@.len() ==> device_names@[j]@ != name@,
{
    let mut i: usize = 0;
    while i < device_names.len()
        invariant
            i <= device_names@.len(),
            forall|j: int| 0 <= j < i ==> device_names@[j]@ != name@,
        decreases device_names@.len() - i,
    {
        if device_names[i].eq(name) {
            return Some(i);
        }
        i = i + 1;
    }
    None
}

} // verus!
