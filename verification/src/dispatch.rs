//! What a completed cycle makes visible.
//!
//! Every successful probe refreshes the indicator and is published as an
//! event. A notification is added only when the probe counts as a change.
//! The plan built here is plain data; carrying it out is left to the caller.

use vstd::prelude::*;
use crate::status::{Status, StatusView};
use crate::table::{Catalog, TranslationTable};
use crate::text::fill_placeholder;
use crate::transition::Transition;
use crate::translate::{
    get_translation, get_translation_fmt, resolved, Locale, KEY_NOTIFICATION_CONNECTED,
    KEY_NOTIFICATION_DISCONNECTED, KEY_NOTIFICATION_TITLE, KEY_TRAY_CONNECTED,
    KEY_TRAY_DISCONNECTED,
};

verus! {

/// Name of the event that carries each committed status.
pub const STATUS_EVENT: &'static str = "vpn-status-changed";

/// What the connected notification names when the status has no country.
pub const COUNTRY_FALLBACK: &'static str = "Mullvad";

/// State shown by the indicator.
#[derive(Debug, Clone, Copy, PartialEq, Eq, Structural)]
pub enum IconStatus {
    Connected,
    Disconnected,
    /// Shown until the first probe has succeeded.
    Unknown,
}

/// New state and tooltip of the indicator. The same update goes to the tray
/// icon and to the window icon.
#[derive(Debug, PartialEq, Eq)]
pub struct IndicatorUpdate {
    pub state: IconStatus,
    pub tooltip: String,
}

/// Mathematical content of an [`IndicatorUpdate`].
pub struct IndicatorView {
    pub state: IconStatus,
    pub tooltip: Seq<char>,
}

impl View for IndicatorUpdate {
    type V = IndicatorView;

    open spec fn view(&self) -> IndicatorView {
        IndicatorView { state: self.state, tooltip: self.tooltip@ }
    }
}

/// A push notification.
#[derive(Debug, PartialEq, Eq)]
pub struct Notification {
    pub title: String,
    pub body: String,
}

/// Mathematical content of a [`Notification`].
pub struct NotificationView {
    pub title: Seq<char>,
    pub body: Seq<char>,
}

impl View for Notification {
    type V = NotificationView;

    open spec fn view(&self) -> NotificationView {
        NotificationView { title: self.title@, body: self.body@ }
    }
}

/// Side effects of one completed cycle.
#[derive(Debug, PartialEq, Eq)]
pub struct DispatchPlan {
    /// Applied on every cycle.
    pub indicator: IndicatorUpdate,
    /// Payload of the [`STATUS_EVENT`] event, emitted on every cycle.
    pub event: Status,
    /// Present only when the cycle detected a change.
    pub notification: Option<Notification>,
}

/// Mathematical content of a [`DispatchPlan`].
pub struct DispatchPlanView {
    pub indicator: IndicatorView,
    pub event: StatusView,
    pub notification: Option<NotificationView>,
}

impl View for DispatchPlan {
    type V = DispatchPlanView;

    open spec fn view(&self) -> DispatchPlanView {
        DispatchPlanView {
            indicator: self.indicator@,
            event: self.event@,
            notification: match self.notification {
                Some(n) => Some(n@),
                None => None,
            },
        }
    }
}

/// The indicator state that stands for `connected`.
pub open spec fn indicator_state(connected: bool) -> IconStatus {
    if connected {
        IconStatus::Connected
    } else {
        IconStatus::Disconnected
    }
}

/// The indicator update for `connected` under `language`.
pub open spec fn indicator_for(catalog: Catalog, language: Seq<char>, connected: bool) -> IndicatorView {
    IndicatorView {
        state: indicator_state(connected),
        tooltip: resolved(
            catalog,
            language,
            if connected {
                KEY_TRAY_CONNECTED@
            } else {
                KEY_TRAY_DISCONNECTED@
            },
        ),
    }
}

/// The country a connected notification names.
pub open spec fn country_shown(status: StatusView) -> Seq<char> {
    match status.country {
        Some(country) => country,
        None => COUNTRY_FALLBACK@,
    }
}

/// The notification that announces `status` under `language`.
pub open spec fn notification_for(catalog: Catalog, language: Seq<char>, status: StatusView) -> NotificationView {
    NotificationView {
        title: resolved(catalog, language, KEY_NOTIFICATION_TITLE@),
        body: if status.connected {
            fill_placeholder(
                resolved(catalog, language, KEY_NOTIFICATION_CONNECTED@),
                country_shown(status),
            )
        } else {
            resolved(catalog, language, KEY_NOTIFICATION_DISCONNECTED@)
        },
    }
}

/// The side effects of a cycle that committed `status`.
pub open spec fn plan_for(
    catalog: Catalog,
    language: Seq<char>,
    status: StatusView,
    changed: bool,
) -> DispatchPlanView {
    DispatchPlanView {
        indicator: indicator_for(catalog, language, status.connected),
        event: status,
        notification: if changed {
            Some(notification_for(catalog, language, status))
        } else {
            None
        },
    }
}

/// Builds the indicator update for `connected`: the matching state, and the
/// matching tooltip in the active locale.
pub fn update_tray_icon(translations: &TranslationTable, language: &Locale, connected: bool) -> (update:
    IndicatorUpdate)
    ensures
        update@ == indicator_for(translations@, language@, connected),
{
    if connected {
        IndicatorUpdate {
            state: IconStatus::Connected,
            tooltip: get_translation(translations, language, KEY_TRAY_CONNECTED),
        }
    } else {
        IndicatorUpdate {
            state: IconStatus::Disconnected,
            tooltip: get_translation(translations, language, KEY_TRAY_DISCONNECTED),
        }
    }
}

/// Builds the notification that announces `status`.
///
/// The connected body names the country of `status`, or [`COUNTRY_FALLBACK`]
/// if it has none.
pub fn notify(translations: &TranslationTable, language: &Locale, status: &Status) -> (notification:
    Notification)
    ensures
        notification@ == notification_for(translations@, language@, status@),
{
    let title = get_translation(translations, language, KEY_NOTIFICATION_TITLE);
    let body = if status.connected {
        match &status.country {
            Some(country) => get_translation_fmt(
                translations,
                language,
                KEY_NOTIFICATION_CONNECTED,
                country.as_str(),
            ),
            None => get_translation_fmt(
                translations,
                language,
                KEY_NOTIFICATION_CONNECTED,
                COUNTRY_FALLBACK,
            ),
        }
    } else {
        get_translation(translations, language, KEY_NOTIFICATION_DISCONNECTED)
    };
    Notification { title, body }
}

/// Plans the side effects for `status`, which the cycle has just committed.
///
/// The indicator update and the event are always part of the plan. The
/// notification is part of it if and only if `transition.changed`.
pub fn dispatch(
    translations: &TranslationTable,
    language: &Locale,
    status: &Status,
    transition: &Transition,
) -> (plan: DispatchPlan)
    ensures
        plan@ == plan_for(translations@, language@, status@, transition.changed),
{
    let indicator = update_tray_icon(translations, language, status.connected);
    let notification = if transition.changed {
        Some(notify(translations, language, status))
    } else {
        None
    };
    DispatchPlan { indicator, event: status.clone(), notification }
}

} // verus!
