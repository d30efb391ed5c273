use vstd::prelude::*;

use crate::text::{decimal, push_decimal, push_str, starts_with};

verus! {

/// The permission bit of administrators.
pub const ADMINISTRATOR: u64 = 8;

/// The bot of the guild. Starting it (commands, gateway, voice) is the program's work.
pub struct Rusty;

/// Whether a member is an administrator: one of their roles (by its permission bits;
/// `None` for a role that is not cached) has the administrator permission.
pub fn is_admin(role_permissions: &Vec<Option<u64>>) -> (b: bool)
    ensures
        b == exists|i: int|
            0 <= i < role_permissions@.len() && (#[trigger] role_permissions@[i] matches Some(p) && p
                & ADMINISTRATOR == ADMINISTRATOR),
{
    let mut i: usize = 0;
    while i < role_permissions.len()
        invariant
            i <= role_permissions@.len(),
            forall|j: int|
                0 <= j < i ==> !(#[trigger] role_permissions@[j] matches Some(p) && p & ADMINISTRATOR
                    == ADMINISTRATOR),
        decreases role_permissions@.len() - i,
    {
        match role_permissions[i] {
            Some(p) => {
                if p & ADMINISTRATOR == ADMINISTRATOR {
                    return true;
                }
            },
            None => {},
        }
        i = i + 1;
    }
    false
}

/// The answer of the slow-mode command: after setting a rate (`edit_succeeded` says
/// whether the channel took it), or, without a rate, the channel's current rate where
/// the channel is a cached guild channel (`cached_rate`, whose inner `None` means no
/// rate is set).
pub fn slow_mode_reply(rate_limit: Option<u64>, edit_succeeded: bool, cached_rate: Option<Option<u64>>) -> (s: String)
    ensures
        s@ == match rate_limit {
            Some(r) => if edit_succeeded {
                "Successfully set slow mode rate to `"@ + decimal(r as nat) + "` seconds."@
            } else {
                "Failed to set the slow mode to `"@ + decimal(r as nat) + "` seconds."@
            },
            None => match cached_rate {
                Some(c) => "Current slow mode rate is `"@ + decimal(
                    match c {
                        Some(x) => x as nat,
                        None => 0nat,
                    },
                ) + "` seconds."@,
                None => "Failed to find channel in cache."@,
            },
        },
{
    match rate_limit {
        Some(r) => {
            let mut s = if edit_succeeded {
                "Successfully set slow mode rate to `".to_string()
            } else {
                "Failed to set the slow mode to `".to_string()
            };
            push_decimal(&mut s, r);
            push_str(&mut s, "` seconds.");
            s
        },
        None => match cached_rate {
            Some(c) => {
                let mut s = "Current slow mode rate is `".to_string();
                let rate = match c {
                    Some(x) => x,
                    None => 0,
                };
                push_decimal(&mut s, rate);
                push_str(&mut s, "` seconds.");
                s
            },
            None => "Failed to find channel in cache.".to_string(),
        },
    }
}

/// The latency field of the ping answer.
pub fn latency_text(millis: u64) -> (s: String)
    ensures
        s@ == decimal(millis as nat) + " ms"@,
{
    let mut s = String::new();
    push_decimal(&mut s, millis);
    push_str(&mut s, " ms");
    s
}

/// Whether a pressed component belongs to the music player.
pub fn is_music_component(custom_id: &str) -> (b: bool)
    ensures
        b == ("music_"@.len() <= custom_id@.len() && custom_id@.take("music_"@.len() as int)
            == "music_"@),
{
    starts_with(custom_id, "music_")
}

} // verus!
