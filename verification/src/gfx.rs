//! supergfxd's graphics modes, power states and pending actions.
use vstd::prelude::*;
use crate::profiles::lemma_key_of_plain_name;
use crate::text::{ascii_lower, join, join_strings, name_key, name_key_of, owned, text_is, views};

verus! {

/// The mode code that a mode name stands for, matched on its key.
pub open spec fn gfx_mode_code_of(name: Seq<char>) -> Option<u32> {
    let k = name_key(name);
    if k == "hybrid"@ || k == "optimus"@ {
        Some(0)
    } else if k == "integrated"@ || k == "igpu"@ {
        Some(1)
    } else if k == "nvidianomodeset"@ || k == "nvidia"@ {
        Some(2)
    } else if k == "vfio"@ {
        Some(3)
    } else if k == "asusegpu"@ || k == "egpu"@ {
        Some(4)
    } else if k == "asusmuxdgpu"@ || k == "ultimate"@ || k == "dgpu"@ {
        Some(5)
    } else if k == "none"@ || k == "unknown"@ {
        Some(6)
    } else {
        None
    }
}

/// The display name of a mode code.
pub open spec fn gfx_mode_label(code: u32) -> Seq<char> {
    if code == 0 {
        "Hybrid"@
    } else if code == 1 {
        "Integrated"@
    } else if code == 2 {
        "NvidiaNoModeset"@
    } else if code == 3 {
        "Vfio"@
    } else if code == 4 {
        "AsusEgpu"@
    } else if code == 5 {
        "AsusMuxDgpu"@
    } else {
        "Unknown"@
    }
}

/// The display name of a GPU power state code.
pub open spec fn gfx_power_label(code: u32) -> Seq<char> {
    if code == 0 {
        "active"@
    } else if code == 1 {
        "suspended"@
    } else if code == 2 {
        "off"@
    } else if code == 3 {
        "dgpu_disabled"@
    } else if code == 4 {
        "asus_mux_discreet"@
    } else {
        "unknown"@
    }
}

/// The display name of a pending user action code.
pub open spec fn gfx_action_label(code: u32) -> Seq<char> {
    if code == 0 {
        "Logout"@
    } else if code == 1 {
        "Reboot"@
    } else if code == 2 {
        "SwitchToIntegrated"@
    } else if code == 3 {
        "AsusEgpuDisable"@
    } else {
        "Nothing"@
    }
}

/// The code supergfxd uses for the mode `mode`, if it names one.
pub fn parse_mode_code(mode: &str) -> (r: Option<u32>)
    ensures
        r == gfx_mode_code_of(mode@),
{
    let k = name_key_of(mode);
    if text_is(&k, "hybrid") || text_is(&k, "optimus") {
        Some(0)
    } else if text_is(&k, "integrated") || text_is(&k, "igpu") {
        Some(1)
    } else if text_is(&k, "nvidianomodeset") || text_is(&k, "nvidia") {
        Some(2)
    } else if text_is(&k, "vfio") {
        Some(3)
    } else if text_is(&k, "asusegpu") || text_is(&k, "egpu") {
        Some(4)
    } else if text_is(&k, "asusmuxdgpu") || text_is(&k, "ultimate") || text_is(&k, "dgpu") {
        Some(5)
    } else if text_is(&k, "none") || text_is(&k, "unknown") {
        Some(6)
    } else {
        None
    }
}

/// The display name of a mode code.
pub fn format_mode_code(code: u32) -> (r: String)
    ensures
        r@ == gfx_mode_label(code),
{
    let name = match code {
        0 => "Hybrid",
        1 => "Integrated",
        2 => "NvidiaNoModeset",
        3 => "Vfio",
        4 => "AsusEgpu",
        5 => "AsusMuxDgpu",
        _ => "Unknown",
    };
    owned(name)
}

/// The display name of a GPU power state code.
pub fn format_power_code(code: u32) -> (r: String)
    ensures
        r@ == gfx_power_label(code),
{
    let name = match code {
        0 => "active",
        1 => "suspended",
        2 => "off",
        3 => "dgpu_disabled",
        4 => "asus_mux_discreet",
        _ => "unknown",
    };
    owned(name)
}

/// The display name of a pending user action code.
pub fn format_action_code(code: u32) -> (r: String)
    ensures
        r@ == gfx_action_label(code),
{
    let name = match code {
        0 => "Logout",
        1 => "Reboot",
        2 => "SwitchToIntegrated",
        3 => "AsusEgpuDisable",
        _ => "Nothing",
    };
    owned(name)
}

/// The display names of a list of mode codes.
pub open spec fn gfx_mode_labels(modes: Seq<u32>) -> Seq<Seq<char>> {
    modes.map_values(|m: u32| gfx_mode_label(m))
}

/// The supported modes, named and joined with ", ".
pub fn format_modes(modes: Vec<u32>) -> (r: String)
    ensures
        r@ == join(gfx_mode_labels(modes@), ", "@),
{
    let mut names: Vec<String> = Vec::new();
    let mut i: usize = 0;
    while i < modes.len()
        invariant
            i <= modes@.len(),
            views(names@) == gfx_mode_labels(modes@.take(i as int)),
        decreases modes@.len() - i,
    {
        let name = format_mode_code(modes[i]);
        let ghost before = names@;
        names.push(name);
        i = i + 1;
        assert(views(names@) =~= gfx_mode_labels(modes@.take(i as int))) by {
            assert(views(names@) =~= views(before).push(name@));
        }
    }
    assert(modes@.take(modes@.len() as int) =~= modes@);
    join_strings(&names, ", ")
}

/// Every mode's display name parses back to its code; every other code is
/// shown as "Unknown", which parses to the code for no mode (6).
pub proof fn lemma_gfx_mode_round_trip(code: u32)
    ensures
        gfx_mode_code_of(gfx_mode_label(code)) == Some(if code <= 5 {
            code
        } else {
            6u32
        }),
{
    reveal_strlit("hybrid");
    reveal_strlit("optimus");
    reveal_strlit("integrated");
    reveal_strlit("igpu");
    reveal_strlit("nvidianomodeset");
    reveal_strlit("nvidia");
    reveal_strlit("vfio");
    reveal_strlit("asusegpu");
    reveal_strlit("egpu");
    reveal_strlit("asusmuxdgpu");
    reveal_strlit("ultimate");
    reveal_strlit("dgpu");
    reveal_strlit("none");
    reveal_strlit("unknown");
    if code == 0 {
        reveal_strlit("Hybrid");
        lemma_key_of_plain_name("Hybrid"@);
        assert(ascii_lower("Hybrid"@) =~= "hybrid"@);
    } else if code == 1 {
        reveal_strlit("Integrated");
        lemma_key_of_plain_name("Integrated"@);
        assert(ascii_lower("Integrated"@) =~= "integrated"@);
    } else if code == 2 {
        reveal_strlit("NvidiaNoModeset");
        lemma_key_of_plain_name("NvidiaNoModeset"@);
        assert(ascii_lower("NvidiaNoModeset"@) =~= "nvidianomodeset"@);
    } else if code == 3 {
        reveal_strlit("Vfio");
        lemma_key_of_plain_name("Vfio"@);
        assert(ascii_lower("Vfio"@) =~= "vfio"@);
        assert("vfio"@[0] != "igpu"@[0]);
    } else if code == 4 {
        reveal_strlit("AsusEgpu");
        lemma_key_of_plain_name("AsusEgpu"@);
        assert(ascii_lower("AsusEgpu"@) =~= "asusegpu"@);
    } else if code == 5 {
        reveal_strlit("AsusMuxDgpu");
        lemma_key_of_plain_name("AsusMuxDgpu"@);
        assert(ascii_lower("AsusMuxDgpu"@) =~= "asusmuxdgpu"@);
    } else {
        reveal_strlit("Unknown");
        lemma_key_of_plain_name("Unknown"@);
        assert(ascii_lower("Unknown"@) =~= "unknown"@);
        assert("unknown"@[0] != "optimus"@[0]);
    }
}

/// supergfxd's graphics modes and their codes: hybrid (or optimus) 0,
/// integrated (or igpu) 1, NVIDIA without modeset (or nvidia) 2, VFIO 3, ASUS
/// eGPU (or egpu) 4, ASUS MUX dGPU (or ultimate, dgpu) 5, none (or unknown) 6.
pub proof fn lemma_gfx_mode_table()
    ensures
        gfx_mode_code_of("hybrid"@) == Some(0u32),
        gfx_mode_code_of("optimus"@) == Some(0u32),
        gfx_mode_code_of("integrated"@) == Some(1u32),
        gfx_mode_code_of("igpu"@) == Some(1u32),
        gfx_mode_code_of("nvidianomodeset"@) == Some(2u32),
        gfx_mode_code_of("nvidia"@) == Some(2u32),
        gfx_mode_code_of("vfio"@) == Some(3u32),
        gfx_mode_code_of("asusegpu"@) == Some(4u32),
        gfx_mode_code_of("egpu"@) == Some(4u32),
        gfx_mode_code_of("asusmuxdgpu"@) == Some(5u32),
        gfx_mode_code_of("ultimate"@) == Some(5u32),
        gfx_mode_code_of("dgpu"@) == Some(5u32),
        gfx_mode_code_of("none"@) == Some(6u32),
        gfx_mode_code_of("unknown"@) == Some(6u32),
{
    reveal_strlit("hybrid");
    crate::lighting::lemma_word_is_its_key("hybrid"@);
    reveal_strlit("optimus");
    crate::lighting::lemma_word_is_its_key("optimus"@);
    reveal_strlit("integrated");
    crate::lighting::lemma_word_is_its_key("integrated"@);
    reveal_strlit("igpu");
    crate::lighting::lemma_word_is_its_key("igpu"@);
    reveal_strlit("nvidianomodeset");
    crate::lighting::lemma_word_is_its_key("nvidianomodeset"@);
    reveal_strlit("nvidia");
    crate::lighting::lemma_word_is_its_key("nvidia"@);
    reveal_strlit("vfio");
    crate::lighting::lemma_word_is_its_key("vfio"@);
    reveal_strlit("asusegpu");
    crate::lighting::lemma_word_is_its_key("asusegpu"@);
    reveal_strlit("egpu");
    crate::lighting::lemma_word_is_its_key("egpu"@);
    reveal_strlit("asusmuxdgpu");
    crate::lighting::lemma_word_is_its_key("asusmuxdgpu"@);
    reveal_strlit("ultimate");
    crate::lighting::lemma_word_is_its_key("ultimate"@);
    reveal_strlit("dgpu");
    crate::lighting::lemma_word_is_its_key("dgpu"@);
    reveal_strlit("none");
    crate::lighting::lemma_word_is_its_key("none"@);
    reveal_strlit("unknown");
    crate::lighting::lemma_word_is_its_key("unknown"@);
}

} // verus!
