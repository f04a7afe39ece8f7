//! The three operations: list the profiles, add one, switch to one.
//!
//! Listing and adding are single steps. Switching writes two values through
//! the external tool, so it is a small machine: it names the next thing to
//! do, the caller does it and reports what came of it.

use vstd::prelude::*;
use vstd::string::StringExecFns;
use crate::gateway::{ConfigKey, GatewayError, Invocation, write_succeeded, write_took_effect};
use crate::presenter::{body_looks, header_looks, profile_table, table_header, table_rows};
use crate::profile::{Profile, ProfileView};
use crate::store::{
    ProfileStore,
    StoreError,
    add_result,
    filter_text,
    find_first,
    rows_after_add,
    unique_keys,
};

verus! {

/// Where a switch stands.
#[derive(Debug, Clone, PartialEq, Eq)]
pub enum SwitchState {
    /// The e-mail address of this profile is being written.
    SettingEmail(Profile),
    /// The e-mail address is written; the name of this profile is being
    /// written.
    SettingName(Profile),
    /// Nothing is left to do.
    Done,
}

/// What the caller of a switch does next.
#[derive(Debug, Clone, PartialEq, Eq)]
pub enum SwitchAction {
    /// Run the tool so that it sets the global value of `key` to `value`,
    /// and report what came of it.
    Write { key: ConfigKey, value: String },
    /// Print this line: the switch is complete.
    Announce(String),
    /// Give up with this error.
    Fail(GatewayError),
    /// Do nothing and print nothing.
    Nothing,
}

/// A [`SwitchState`] over the view of its profile.
pub enum SwitchStateView {
    SettingEmail(ProfileView),
    SettingName(ProfileView),
    Done,
}

/// A [`SwitchAction`] over the views of its strings.
pub enum SwitchActionView {
    Write { key: ConfigKey, value: Seq<char> },
    Announce(Seq<char>),
    Fail(GatewayError),
    Nothing,
}

impl View for SwitchState {
    type V = SwitchStateView;

    open spec fn view(&self) -> SwitchStateView {
        match self {
            SwitchState::SettingEmail(p) => SwitchStateView::SettingEmail(p@),
            SwitchState::SettingName(p) => SwitchStateView::SettingName(p@),
            SwitchState::Done => SwitchStateView::Done,
        }
    }
}

impl View for SwitchAction {
    type V = SwitchActionView;

    open spec fn view(&self) -> SwitchActionView {
        match self {
            SwitchAction::Write { key, value } => SwitchActionView::Write {
                key: *key,
                value: value@,
            },
            SwitchAction::Announce(line) => SwitchActionView::Announce(line@),
            SwitchAction::Fail(error) => SwitchActionView::Fail(*error),
            SwitchAction::Nothing => SwitchActionView::Nothing,
        }
    }
}

/// The identity that the external tool holds: a name and an e-mail address.
pub struct IdentityView {
    pub name: Seq<char>,
    pub email: Seq<char>,
}

/// The line that confirms an add.
pub open spec fn added_text() -> Seq<char> {
    "Successfully added new profile!"@
}

/// The line that confirms a switch to `p`: it names the alias and the e-mail
/// address.
pub open spec fn switched_text(p: ProfileView) -> Seq<char> {
    "Successfully changed profile to "@ + p.alias + " ("@ + p.email + ")"@
}

/// How a switch starts: with the write of the e-mail address of the first
/// profile that matches the filters, or, where none matches, with nothing.
pub open spec fn switch_start(rows: Seq<ProfileView>, alias: Seq<char>, email: Seq<char>) -> (
    SwitchStateView,
    SwitchActionView,
) {
    match find_first(rows, alias, email) {
        Some(p) => (
            SwitchStateView::SettingEmail(p),
            SwitchActionView::Write { key: ConfigKey::Email, value: p.email },
        ),
        None => (SwitchStateView::Done, SwitchActionView::Nothing),
    }
}

/// How a switch goes on once a write has taken effect or not: after the
/// e-mail address comes the name, after the name the confirmation, and a
/// write that fails ends the switch with its error.
pub open spec fn switch_step(state: SwitchStateView, written: bool) -> (
    SwitchStateView,
    SwitchActionView,
) {
    match state {
        SwitchStateView::SettingEmail(p) => if written {
            (
                SwitchStateView::SettingName(p),
                SwitchActionView::Write { key: ConfigKey::Name, value: p.name },
            )
        } else {
            (
                SwitchStateView::Done,
                SwitchActionView::Fail(GatewayError::WriteFailed(ConfigKey::Email)),
            )
        },
        SwitchStateView::SettingName(p) => if written {
            (SwitchStateView::Done, SwitchActionView::Announce(switched_text(p)))
        } else {
            (
                SwitchStateView::Done,
                SwitchActionView::Fail(GatewayError::WriteFailed(ConfigKey::Name)),
            )
        },
        SwitchStateView::Done => (SwitchStateView::Done, SwitchActionView::Nothing),
    }
}

/// The identity after the tool has carried out `action` with success: a
/// write replaces one of the two values, anything else leaves both.
pub open spec fn identity_after(identity: IdentityView, action: SwitchActionView) -> IdentityView {
    match action {
        SwitchActionView::Write { key: ConfigKey::Email, value } => IdentityView {
            email: value,
            ..identity
        },
        SwitchActionView::Write { key: ConfigKey::Name, value } => IdentityView {
            name: value,
            ..identity
        },
        _ => identity,
    }
}

/// A switch that finds a profile, and whose two writes take effect, writes
/// the e-mail address, then the name, then confirms; whatever the identity
/// was before, it is then the name and the e-mail address of that profile.
pub proof fn lemma_switch_sets_identity(
    rows: Seq<ProfileView>,
    alias: Seq<char>,
    email: Seq<char>,
    before: IdentityView,
)
    requires
        find_first(rows, alias, email) is Some,
    ensures
        ({
            let p = find_first(rows, alias, email)->Some_0;
            let (s1, a1) = switch_start(rows, alias, email);
            let (s2, a2) = switch_step(s1, true);
            let (s3, a3) = switch_step(s2, true);
            &&& a1 == SwitchActionView::Write { key: ConfigKey::Email, value: p.email }
            &&& a2 == SwitchActionView::Write { key: ConfigKey::Name, value: p.name }
            &&& a3 == SwitchActionView::Announce(switched_text(p))
            &&& s3 == SwitchStateView::Done
            &&& identity_after(identity_after(before, a1), a2) == IdentityView {
                name: p.name,
                email: p.email,
            }
        }),
{
}

/// A switch that finds no profile asks for nothing: no write, no line, and
/// the identity stays what it was.
pub proof fn lemma_switch_without_match_is_silent(
    rows: Seq<ProfileView>,
    alias: Seq<char>,
    email: Seq<char>,
    before: IdentityView,
)
    requires
        find_first(rows, alias, email) is None,
    ensures
        switch_start(rows, alias, email) == (SwitchStateView::Done, SwitchActionView::Nothing),
        identity_after(before, switch_start(rows, alias, email).1) == before,
{
}

/// A switch never asks for the name to be written after the write of the
/// e-mail address has failed, and never confirms after a failed write.
pub proof fn lemma_failed_write_ends_switch(state: SwitchStateView)
    ensures
        switch_step(state, false).0 == SwitchStateView::Done,
        !(switch_step(state, false).1 is Write),
        !(switch_step(state, false).1 is Announce),
{
}

/// The table of every stored profile in insertion order, below the header,
/// with the row emphasised whose e-mail address is `current_email`.
pub fn list_profiles(store: &ProfileStore, current_email: &str) -> (table: comfy_table::Table)
    ensures
        table_header(table) == Some(header_looks()),
        table_rows(table) == body_looks(store@, current_email@),
        unique_keys(store@),
{
    let profiles = store.list_all();
    profile_table(&profiles, current_email)
}

/// Adds a profile to the store and returns the line that confirms it. Where
/// the e-mail address or the alias is taken, the store stays as it was and
/// the error says which of the two collides.
pub fn add_profile(store: &mut ProfileStore, name: &str, alias: &str, email: &str) -> (r: Result<
    String,
    StoreError,
>)
    ensures
        final(store)@ == rows_after_add(
            old(store)@,
            ProfileView { name: name@, email: email@, alias: alias@ },
        ),
        match add_result(old(store)@, ProfileView { name: name@, email: email@, alias: alias@ }) {
            Ok(_) => r matches Ok(line) && line@ == added_text(),
            Err(e) => r matches Err(f) && f == e,
        },
{
    match store.add(name, email, alias) {
        Ok(_) => Ok("Successfully added new profile!".to_owned()),
        Err(e) => Err(e),
    }
}

/// The line that confirms a switch to `profile`.
pub fn switched_line(profile: &Profile) -> (line: String)
    ensures
        line@ == switched_text(profile@),
{
    let mut line = "Successfully changed profile to ".to_owned();
    line.append(profile.alias.as_str());
    line.append(" (");
    line.append(profile.email.as_str());
    line.append(")");
    line
}

/// Starts a switch: looks up the first profile whose alias contains `alias`
/// or whose e-mail address is `email`, and asks for its e-mail address to be
/// written. Where no profile matches there is nothing to do.
pub fn begin_switch(store: &ProfileStore, alias: Option<&str>, email: Option<&str>) -> (r: (
    SwitchState,
    SwitchAction,
))
    ensures
        (r.0@, r.1@) == switch_start(store@, filter_text(alias), filter_text(email)),
{
    match store.find_one(alias, email) {
        Some(p) => {
            let value = p.email.clone();
            (SwitchState::SettingEmail(p), SwitchAction::Write { key: ConfigKey::Email, value })
        },
        None => (SwitchState::Done, SwitchAction::Nothing),
    }
}

/// Goes on with a switch after the write that was asked for: `outcome` is
/// what came of running the tool.
pub fn continue_switch(state: SwitchState, outcome: &Invocation) -> (r: (SwitchState, SwitchAction))
    ensures
        (r.0@, r.1@) == switch_step(state@, write_took_effect(*outcome)),
{
    let written = write_succeeded(outcome);
    match state {
        SwitchState::SettingEmail(p) => {
            if written {
                let value = p.name.clone();
                (SwitchState::SettingName(p), SwitchAction::Write { key: ConfigKey::Name, value })
            } else {
                (
                    SwitchState::Done,
                    SwitchAction::Fail(GatewayError::WriteFailed(ConfigKey::Email)),
                )
            }
        },
        SwitchState::SettingName(p) => {
            if written {
                (SwitchState::Done, SwitchAction::Announce(switched_line(&p)))
            } else {
                (SwitchState::Done, SwitchAction::Fail(GatewayError::WriteFailed(ConfigKey::Name)))
            }
        },
        SwitchState::Done => (SwitchState::Done, SwitchAction::Nothing),
    }
}

} // verus!
