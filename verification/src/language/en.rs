//! English source strings: the canonical inventory every other language
//! file is keyed by. Entries map to themselves, so this file is the one
//! place to read what is translatable and to diff a new language
//! against. A string missing here still renders as written.
use vstd::prelude::*;

use crate::text::same_text;

verus! {

/// The English form of every source string this file carries.
pub open spec fn table(source: Seq<char>) -> Option<Seq<char>> {
    if source == "Play preview"@ {
        Some("Play preview"@)
    } else if source == "Pause preview"@ {
        Some("Pause preview"@)
    } else if source == "Unsaved Draft Changes"@ {
        Some("Unsaved Draft Changes"@)
    } else if source == "Click Apply to commit draft edits."@ {
        Some("Click Apply to commit draft edits."@)
    } else if source == "Updates live while measuring"@ {
        Some("Updates live while measuring"@)
    } else if source == "Based on neutral transitions"@ {
        Some("Based on neutral transitions"@)
    } else if source == "Based on physical overlaps"@ {
        Some("Based on physical overlaps"@)
    } else if source == "Shows how long each key is held and where it overlaps its opposite, live."@ {
        Some("Shows how long each key is held and where it overlaps its opposite, live."@)
    } else if source == "Keyboard input capture is active"@ {
        Some("Keyboard input capture is active"@)
    } else if source == "Each overlap randomly picks one of the two delays below."@ {
        Some("Each overlap randomly picks one of the two delays below."@)
    } else if source == "Unclear input order (<1 ms), excluded from timing ranges."@ {
        Some("Unclear input order (<1 ms), excluded from timing ranges."@)
    } else if source == "PREVIEW"@ {
        Some("PREVIEW"@)
    } else if source == "Previous example"@ {
        Some("Previous example"@)
    } else if source == "Next example"@ {
        Some("Next example"@)
    } else if source == "Opposite-direction overlap"@ {
        Some("Opposite-direction overlap"@)
    } else if source == "Neutral gap (neither key active)"@ {
        Some("Neutral gap (neither key active)"@)
    } else if source == "A output active"@ {
        Some("A output active"@)
    } else if source == "D output active"@ {
        Some("D output active"@)
    } else if source == "Key mappings"@ {
        Some("Key mappings"@)
    } else if source == "Input timings"@ {
        Some("Input timings"@)
    } else if source == "Key Input Timeline"@ {
        Some("Key Input Timeline"@)
    } else if source == "Input timing measurement"@ {
        Some("Input timing measurement"@)
    } else if source == "Measured Input Transitions"@ {
        Some("Measured Input Transitions"@)
    } else if source == "Suggested delays"@ {
        Some("Suggested delays"@)
    } else if source == "Hardware scan codes the SOCD filter uses"@ {
        Some("Hardware scan codes the SOCD filter uses"@)
    } else if source == "How opposite-direction overlaps resolve."@ {
        Some("How opposite-direction overlaps resolve."@)
    } else if source == "Restore mapping defaults"@ {
        Some("Restore mapping defaults"@)
    } else if source == "Restore timing defaults"@ {
        Some("Restore timing defaults"@)
    } else if source == "Restore all defaults"@ {
        Some("Restore all defaults"@)
    } else if source == "Revert"@ {
        Some("Revert"@)
    } else if source == "Apply"@ {
        Some("Apply"@)
    } else if source == "Profile Slots"@ {
        Some("Profile Slots"@)
    } else if source == "Profiles"@ {
        Some("Profiles"@)
    } else if source == "Profile"@ {
        Some("Profile"@)
    } else if source == "Language"@ {
        Some("Language"@)
    } else if source == "Rename"@ {
        Some("Rename"@)
    } else if source == "Load"@ {
        Some("Load"@)
    } else if source == "Cancel"@ {
        Some("Cancel"@)
    } else if source == "Close"@ {
        Some("Close"@)
    } else if source == "Profile name"@ {
        Some("Profile name"@)
    } else if source == "Changes are saved when you click Apply."@ {
        Some("Changes are saved when you click Apply."@)
    } else if source == "Load a slot to activate it immediately. Apply saves edits to the active slot."@ {
        Some("Load a slot to activate it immediately. Apply saves edits to the active slot."@)
    } else if source == "Load this slot?"@ {
        Some("Load this slot?"@)
    } else if source == "Unapplied draft changes will be discarded."@ {
        Some("Unapplied draft changes will be discarded."@)
    } else if source == "Loading and activating profile…"@ {
        Some("Loading and activating profile…"@)
    } else if source == "Saving profile name…"@ {
        Some("Saving profile name…"@)
    } else if source == "Profile loaded and activated."@ {
        Some("Profile loaded and activated."@)
    } else if source == "Profile renamed."@ {
        Some("Profile renamed."@)
    } else if source == "Active"@ {
        Some("Active"@)
    } else if source == "Updating…"@ {
        Some("Updating…"@)
    } else if source == "Enable the SOCD filter"@ {
        Some("Enable the SOCD filter"@)
    } else if source == "Disable the SOCD filter"@ {
        Some("Disable the SOCD filter"@)
    } else if source == "All keys uniquely assigned."@ {
        Some("All keys uniquely assigned."@)
    } else if source == "Duplicate key bindings detected."@ {
        Some("Duplicate key bindings detected."@)
    } else if source == "UP"@ {
        Some("UP"@)
    } else if source == "DOWN"@ {
        Some("DOWN"@)
    } else if source == "LEFT"@ {
        Some("LEFT"@)
    } else if source == "RIGHT"@ {
        Some("RIGHT"@)
    } else if source == "Immediate"@ {
        Some("Immediate"@)
    } else if source == "Press Delay"@ {
        Some("Press Delay"@)
    } else if source == "Random Mix"@ {
        Some("Random Mix"@)
    } else if source == "Release Delay"@ {
        Some("Release Delay"@)
    } else if source == "How it works"@ {
        Some("How it works"@)
    } else if source == "Delay Mix Ratio"@ {
        Some("Delay Mix Ratio"@)
    } else if source == "Press delay"@ {
        Some("Press delay"@)
    } else if source == "Release delay"@ {
        Some("Release delay"@)
    } else if source == "New Key Press Delay"@ {
        Some("New Key Press Delay"@)
    } else if source == "Previous Key Release Delay"@ {
        Some("Previous Key Release Delay"@)
    } else if source == "Starting…"@ {
        Some("Starting…"@)
    } else if source == "Stopping…"@ {
        Some("Stopping…"@)
    } else if source == "Start measurement"@ {
        Some("Start measurement"@)
    } else if source == "Stop measurement"@ {
        Some("Stop measurement"@)
    } else if source == "Reset session"@ {
        Some("Reset session"@)
    } else if source == "Records your mapped key-pair timing for this session."@ {
        Some("Records your mapped key-pair timing for this session."@)
    } else if source == "No measurement results yet."@ {
        Some("No measurement results yet."@)
    } else if source == "Physical key edges"@ {
        Some("Physical key edges"@)
    } else if source == "Valid paired samples"@ {
        Some("Valid paired samples"@)
    } else if source == "Physical overlap share"@ {
        Some("Physical overlap share"@)
    } else if source == "Indistinguishable share"@ {
        Some("Indistinguishable share"@)
    } else if source == "INPUT PATTERN"@ {
        Some("INPUT PATTERN"@)
    } else if source == "SAMPLES"@ {
        Some("SAMPLES"@)
    } else if source == "MIN"@ {
        Some("MIN"@)
    } else if source == "MAX"@ {
        Some("MAX"@)
    } else if source == "Neutral transition"@ {
        Some("Neutral transition"@)
    } else if source == "Physical overlap"@ {
        Some("Physical overlap"@)
    } else if source == "Indistinguishable"@ {
        Some("Indistinguishable"@)
    } else if source == "Based on P10-P50 input timings, excluding indistinguishable inputs."@ {
        Some("Based on P10-P50 input timings, excluding indistinguishable inputs."@)
    } else if source == "Apply suggestions"@ {
        Some("Apply suggestions"@)
    } else if source == "Synchronized"@ {
        Some("Synchronized"@)
    } else if source == "Settings are synchronized with the runtime."@ {
        Some("Settings are synchronized with the runtime."@)
    } else if source == "Settings applied."@ {
        Some("Settings applied."@)
    } else if source == "Connecting to the LastKey runtime..."@ {
        Some("Connecting to the LastKey runtime..."@)
    } else if source == "Connected to the LastKey runtime."@ {
        Some("Connected to the LastKey runtime."@)
    } else if source == "The LastKey runtime is disconnected."@ {
        Some("The LastKey runtime is disconnected."@)
    } else if source == "The settings UI is waiting for LastKey.exe."@ {
        Some("The settings UI is waiting for LastKey.exe."@)
    } else if source == "Request snapshot"@ {
        Some("Request snapshot"@)
    } else if source == "Applying settings..."@ {
        Some("Applying settings..."@)
    } else if source == "Mapping changed. Select Apply when ready."@ {
        Some("Mapping changed. Select Apply when ready."@)
    } else if source == "Recommendations written to the draft. Select Apply when ready."@ {
        Some("Recommendations written to the draft. Select Apply when ready."@)
    } else if source == "Detect an opposite-direction overlap."@ {
        Some("Detect an opposite-direction overlap."@)
    } else if source == "Release the previous key output immediately."@ {
        Some("Release the previous key output immediately."@)
    } else if source == "Send the new key immediately. 0 ms added delay"@ {
        Some("Send the new key immediately. 0 ms added delay"@)
    } else if source == "Send the new key immediately."@ {
        Some("Send the new key immediately."@)
    } else if source == "Wait a random time within {range}. This gap sends no input"@ {
        Some("Wait a random time within {range}. This gap sends no input"@)
    } else if source == "Send the new key once the wait ends."@ {
        Some("Send the new key once the wait ends."@)
    } else if source == "Wait a random time within {range}. The overlap stays live"@ {
        Some("Wait a random time within {range}. The overlap stays live"@)
    } else if source == "Release the previous key output once the wait ends."@ {
        Some("Release the previous key output once the wait ends."@)
    } else if source == "Click keycap to rebind"@ {
        Some("Click keycap to rebind"@)
    } else if source == "Press a new key on your keyboard..."@ {
        Some("Press a new key on your keyboard..."@)
    } else if source == "ESC Cancel"@ {
        Some("ESC Cancel"@)
    } else if source == "Preview"@ {
        Some("Preview"@)
    } else if source == "Game receives A + D"@ {
        Some("Game receives A + D"@)
    } else if source == "Game receives no direction"@ {
        Some("Game receives no direction"@)
    } else if source == "Game receives A"@ {
        Some("Game receives A"@)
    } else if source == "Game receives D"@ {
        Some("Game receives D"@)
    } else {
        None
    }
}

/// The English form of `source`, or `None` where this file has none.
#[verifier::rlimit(50)]
pub fn text(source: &str) -> (r: Option<&'static str>)
    ensures
        r is None <==> table(source@) is None,
        r matches Some(t) ==> table(source@) == Some(t@),
{
    if same_text(source, "Play preview") {
        return Some("Play preview");
    }
    if same_text(source, "Pause preview") {
        return Some("Pause preview");
    }
    if same_text(source, "Unsaved Draft Changes") {
        return Some("Unsaved Draft Changes");
    }
    if same_text(source, "Click Apply to commit draft edits.") {
        return Some("Click Apply to commit draft edits.");
    }
    if same_text(source, "Updates live while measuring") {
        return Some("Updates live while measuring");
    }
    if same_text(source, "Based on neutral transitions") {
        return Some("Based on neutral transitions");
    }
    if same_text(source, "Based on physical overlaps") {
        return Some("Based on physical overlaps");
    }
    if same_text(source, "Shows how long each key is held and where it overlaps its opposite, live.") {
        return Some("Shows how long each key is held and where it overlaps its opposite, live.");
    }
    if same_text(source, "Keyboard input capture is active") {
        return Some("Keyboard input capture is active");
    }
    if same_text(source, "Each overlap randomly picks one of the two delays below.") {
        return Some("Each overlap randomly picks one of the two delays below.");
    }
    if same_text(source, "Unclear input order (<1 ms), excluded from timing ranges.") {
        return Some("Unclear input order (<1 ms), excluded from timing ranges.");
    }
    if same_text(source, "PREVIEW") {
        return Some("PREVIEW");
    }
    if same_text(source, "Previous example") {
        return Some("Previous example");
    }
    if same_text(source, "Next example") {
        return Some("Next example");
    }
    if same_text(source, "Opposite-direction overlap") {
        return Some("Opposite-direction overlap");
    }
    if same_text(source, "Neutral gap (neither key active)") {
        return Some("Neutral gap (neither key active)");
    }
    if same_text(source, "A output active") {
        return Some("A output active");
    }
    if same_text(source, "D output active") {
        return Some("D output active");
    }
    if same_text(source, "Key mappings") {
        return Some("Key mappings");
    }
    if same_text(source, "Input timings") {
        return Some("Input timings");
    }
    if same_text(source, "Key Input Timeline") {
        return Some("Key Input Timeline");
    }
    if same_text(source, "Input timing measurement") {
        return Some("Input timing measurement");
    }
    if same_text(source, "Measured Input Transitions") {
        return Some("Measured Input Transitions");
    }
    if same_text(source, "Suggested delays") {
        return Some("Suggested delays");
    }
    if same_text(source, "Hardware scan codes the SOCD filter uses") {
        return Some("Hardware scan codes the SOCD filter uses");
    }
    if same_text(source, "How opposite-direction overlaps resolve.") {
        return Some("How opposite-direction overlaps resolve.");
    }
    if same_text(source, "Restore mapping defaults") {
        return Some("Restore mapping defaults");
    }
    if same_text(source, "Restore timing defaults") {
        return Some("Restore timing defaults");
    }
    if same_text(source, "Restore all defaults") {
        return Some("Restore all defaults");
    }
    if same_text(source, "Revert") {
        return Some("Revert");
    }
    if same_text(source, "Apply") {
        return Some("Apply");
    }
    if same_text(source, "Profile Slots") {
        return Some("Profile Slots");
    }
    if same_text(source, "Profiles") {
        return Some("Profiles");
    }
    if same_text(source, "Profile") {
        return Some("Profile");
    }
    if same_text(source, "Language") {
        return Some("Language");
    }
    if same_text(source, "Rename") {
        return Some("Rename");
    }
    if same_text(source, "Load") {
        return Some("Load");
    }
    if same_text(source, "Cancel") {
        return Some("Cancel");
    }
    if same_text(source, "Close") {
        return Some("Close");
    }
    if same_text(source, "Profile name") {
        return Some("Profile name");
    }
    if same_text(source, "Changes are saved when you click Apply.") {
        return Some("Changes are saved when you click Apply.");
    }
    if same_text(source, "Load a slot to activate it immediately. Apply saves edits to the active slot.") {
        return Some("Load a slot to activate it immediately. Apply saves edits to the active slot.");
    }
    if same_text(source, "Load this slot?") {
        return Some("Load this slot?");
    }
    if same_text(source, "Unapplied draft changes will be discarded.") {
        return Some("Unapplied draft changes will be discarded.");
    }
    if same_text(source, "Loading and activating profile…") {
        return Some("Loading and activating profile…");
    }
    if same_text(source, "Saving profile name…") {
        return Some("Saving profile name…");
    }
    if same_text(source, "Profile loaded and activated.") {
        return Some("Profile loaded and activated.");
    }
    if same_text(source, "Profile renamed.") {
        return Some("Profile renamed.");
    }
    if same_text(source, "Active") {
        return Some("Active");
    }
    if same_text(source, "Updating…") {
        return Some("Updating…");
    }
    if same_text(source, "Enable the SOCD filter") {
        return Some("Enable the SOCD filter");
    }
    if same_text(source, "Disable the SOCD filter") {
        return Some("Disable the SOCD filter");
    }
    if same_text(source, "All keys uniquely assigned.") {
        return Some("All keys uniquely assigned.");
    }
    if same_text(source, "Duplicate key bindings detected.") {
        return Some("Duplicate key bindings detected.");
    }
    if same_text(source, "UP") {
        return Some("UP");
    }
    if same_text(source, "DOWN") {
        return Some("DOWN");
    }
    if same_text(source, "LEFT") {
        return Some("LEFT");
    }
    if same_text(source, "RIGHT") {
        return Some("RIGHT");
    }
    if same_text(source, "Immediate") {
        return Some("Immediate");
    }
    if same_text(source, "Press Delay") {
        return Some("Press Delay");
    }
    if same_text(source, "Random Mix") {
        return Some("Random Mix");
    }
    if same_text(source, "Release Delay") {
        return Some("Release Delay");
    }
    if same_text(source, "How it works") {
        return Some("How it works");
    }
    if same_text(source, "Delay Mix Ratio") {
        return Some("Delay Mix Ratio");
    }
    if same_text(source, "Press delay") {
        return Some("Press delay");
    }
    if same_text(source, "Release delay") {
        return Some("Release delay");
    }
    if same_text(source, "New Key Press Delay") {
        return Some("New Key Press Delay");
    }
    if same_text(source, "Previous Key Release Delay") {
        return Some("Previous Key Release Delay");
    }
    if same_text(source, "Starting…") {
        return Some("Starting…");
    }
    if same_text(source, "Stopping…") {
        return Some("Stopping…");
    }
    if same_text(source, "Start measurement") {
        return Some("Start measurement");
    }
    if same_text(source, "Stop measurement") {
        return Some("Stop measurement");
    }
    if same_text(source, "Reset session") {
        return Some("Reset session");
    }
    if same_text(source, "Records your mapped key-pair timing for this session.") {
        return Some("Records your mapped key-pair timing for this session.");
    }
    if same_text(source, "No measurement results yet.") {
        return Some("No measurement results yet.");
    }
    if same_text(source, "Physical key edges") {
        return Some("Physical key edges");
    }
    if same_text(source, "Valid paired samples") {
        return Some("Valid paired samples");
    }
    if same_text(source, "Physical overlap share") {
        return Some("Physical overlap share");
    }
    if same_text(source, "Indistinguishable share") {
        return Some("Indistinguishable share");
    }
    if same_text(source, "INPUT PATTERN") {
        return Some("INPUT PATTERN");
    }
    if same_text(source, "SAMPLES") {
        return Some("SAMPLES");
    }
    if same_text(source, "MIN") {
        return Some("MIN");
    }
    if same_text(source, "MAX") {
        return Some("MAX");
    }
    if same_text(source, "Neutral transition") {
        return Some("Neutral transition");
    }
    if same_text(source, "Physical overlap") {
        return Some("Physical overlap");
    }
    if same_text(source, "Indistinguishable") {
        return Some("Indistinguishable");
    }
    if same_text(source, "Based on P10-P50 input timings, excluding indistinguishable inputs.") {
        return Some("Based on P10-P50 input timings, excluding indistinguishable inputs.");
    }
    if same_text(source, "Apply suggestions") {
        return Some("Apply suggestions");
    }
    if same_text(source, "Synchronized") {
        return Some("Synchronized");
    }
    if same_text(source, "Settings are synchronized with the runtime.") {
        return Some("Settings are synchronized with the runtime.");
    }
    if same_text(source, "Settings applied.") {
        return Some("Settings applied.");
    }
    if same_text(source, "Connecting to the LastKey runtime...") {
        return Some("Connecting to the LastKey runtime...");
    }
    if same_text(source, "Connected to the LastKey runtime.") {
        return Some("Connected to the LastKey runtime.");
    }
    if same_text(source, "The LastKey runtime is disconnected.") {
        return Some("The LastKey runtime is disconnected.");
    }
    if same_text(source, "The settings UI is waiting for LastKey.exe.") {
        return Some("The settings UI is waiting for LastKey.exe.");
    }
    if same_text(source, "Request snapshot") {
        return Some("Request snapshot");
    }
    if same_text(source, "Applying settings...") {
        return Some("Applying settings...");
    }
    if same_text(source, "Mapping changed. Select Apply when ready.") {
        return Some("Mapping changed. Select Apply when ready.");
    }
    if same_text(source, "Recommendations written to the draft. Select Apply when ready.") {
        return Some("Recommendations written to the draft. Select Apply when ready.");
    }
    if same_text(source, "Detect an opposite-direction overlap.") {
        return Some("Detect an opposite-direction overlap.");
    }
    if same_text(source, "Release the previous key output immediately.") {
        return Some("Release the previous key output immediately.");
    }
    if same_text(source, "Send the new key immediately. 0 ms added delay") {
        return Some("Send the new key immediately. 0 ms added delay");
    }
    if same_text(source, "Send the new key immediately.") {
        return Some("Send the new key immediately.");
    }
    if same_text(source, "Wait a random time within {range}. This gap sends no input") {
        return Some("Wait a random time within {range}. This gap sends no input");
    }
    if same_text(source, "Send the new key once the wait ends.") {
        return Some("Send the new key once the wait ends.");
    }
    if same_text(source, "Wait a random time within {range}. The overlap stays live") {
        return Some("Wait a random time within {range}. The overlap stays live");
    }
    if same_text(source, "Release the previous key output once the wait ends.") {
        return Some("Release the previous key output once the wait ends.");
    }
    if same_text(source, "Click keycap to rebind") {
        return Some("Click keycap to rebind");
    }
    if same_text(source, "Press a new key on your keyboard...") {
        return Some("Press a new key on your keyboard...");
    }
    if same_text(source, "ESC Cancel") {
        return Some("ESC Cancel");
    }
    if same_text(source, "Preview") {
        return Some("Preview");
    }
    if same_text(source, "Game receives A + D") {
        return Some("Game receives A + D");
    }
    if same_text(source, "Game receives no direction") {
        return Some("Game receives no direction");
    }
    if same_text(source, "Game receives A") {
        return Some("Game receives A");
    }
    if same_text(source, "Game receives D") {
        return Some("Game receives D");
    }
    None
}

} // verus!
