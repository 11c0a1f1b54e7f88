//! The state that the bridge to the web runtime shares with other services:
//! which delegates the runtime has set, what they answered, and the
//! preferences it has pushed.
//!
//! The delegates themselves live with the embedding program. It asks them,
//! and hands each reply to the state, which says what the reply means.

use crate::string_map::StringMap;
use vstd::prelude::*;
use vstd::string::*;

verus! {

/// The one error of the screen control.
#[derive(Clone, Copy, Debug, PartialEq, Eq, Structural)]
pub struct BridgeError;

impl BridgeError {
    /// The message of the error.
    pub fn to_string(&self) -> (message: String)
        ensures
            message@ == "GeckoBridge Error"@,
    {
        String::from_str("GeckoBridge Error")
    }
}

/// Why a delegate gave no usable answer.
#[derive(Clone, Copy, Debug, PartialEq, Eq, Structural)]
pub enum DelegateError {
    /// The web runtime reported an error.
    InvalidWebRuntimeService,
    /// The channel to the delegate was closed before it answered.
    InvalidChannel,
    /// The delegate is not set.
    InvalidDelegator,
    /// The wakelock is unknown, or was refused.
    InvalidWakelock,
}

/// The message of `error`.
pub open spec fn delegate_error_message(error: DelegateError) -> Seq<char> {
    match error {
        DelegateError::InvalidWebRuntimeService => "Report errors from web runtime"@,
        DelegateError::InvalidChannel => "Receive receiver error"@,
        DelegateError::InvalidDelegator => "Failed to get delegate manager"@,
        DelegateError::InvalidWakelock => "Invalid wakelock"@,
    }
}

impl DelegateError {
    /// The message of the error.
    pub fn to_string(&self) -> (message: String)
        ensures
            message@ == delegate_error_message(*self),
    {
        match self {
            DelegateError::InvalidWebRuntimeService => String::from_str(
                "Report errors from web runtime",
            ),
            DelegateError::InvalidChannel => String::from_str("Receive receiver error"),
            DelegateError::InvalidDelegator => String::from_str("Failed to get delegate manager"),
            DelegateError::InvalidWakelock => String::from_str("Invalid wakelock"),
        }
    }
}

/// The value of a preference.
#[derive(Debug, PartialEq, Eq)]
pub enum PrefValue {
    Str(String),
    Int(i64),
    Bool(bool),
}

/// Mathematical value of a [`PrefValue`].
pub enum PrefValueView {
    Str(Seq<char>),
    Int(i64),
    Bool(bool),
}

impl View for PrefValue {
    type V = PrefValueView;

    open spec fn view(&self) -> PrefValueView {
        match self {
            PrefValue::Str(value) => PrefValueView::Str(value@),
            PrefValue::Int(value) => PrefValueView::Int(*value),
            PrefValue::Bool(value) => PrefValueView::Bool(*value),
        }
    }
}

impl Clone for PrefValue {
    fn clone(&self) -> (copy: Self)
        ensures
            copy@ == self@,
    {
        match self {
            PrefValue::Str(value) => PrefValue::Str(value.clone()),
            PrefValue::Int(value) => PrefValue::Int(*value),
            PrefValue::Bool(value) => PrefValue::Bool(*value),
        }
    }
}

/// What came back from a call to a delegate.
#[derive(Debug, PartialEq, Eq)]
pub enum DelegateReply<T> {
    /// The delegate answered with a value.
    Answer(T),
    /// The delegate answered with an error.
    Rejected,
    /// The channel was closed before an answer came.
    Disconnected,
}

/// What a reply means where the delegate may not be set: without a
/// delegate nothing was asked; a closed channel is reported as such; an
/// error of the delegate is reported as `rejected`.
pub open spec fn delegate_outcome<T>(
    delegate_set: bool,
    reply: DelegateReply<T>,
    rejected: DelegateError,
) -> Result<T, DelegateError> {
    if !delegate_set {
        Err(DelegateError::InvalidDelegator)
    } else {
        match reply {
            DelegateReply::Answer(value) => Ok(value),
            DelegateReply::Rejected => Err(rejected),
            DelegateReply::Disconnected => Err(DelegateError::InvalidChannel),
        }
    }
}

/// What the reply to a request that sets a preference means: any answer of
/// the delegate counts as done.
pub open spec fn setter_outcome(delegate_set: bool, reply: DelegateReply<()>) -> Result<
    (),
    DelegateError,
> {
    if !delegate_set {
        Err(DelegateError::InvalidDelegator)
    } else {
        match reply {
            DelegateReply::Disconnected => Err(DelegateError::InvalidChannel),
            _ => Ok(()),
        }
    }
}

/// What the reply of a wakelock means: a wakelock that is not known is
/// invalid; a closed channel is reported as such; a refusal of the
/// delegate is reported as `rejected`.
pub open spec fn wakelock_outcome<T>(
    known: bool,
    reply: DelegateReply<T>,
    rejected: DelegateError,
) -> Result<T, DelegateError> {
    if !known {
        Err(DelegateError::InvalidWakelock)
    } else {
        match reply {
            DelegateReply::Answer(value) => Ok(value),
            DelegateReply::Rejected => Err(rejected),
            DelegateReply::Disconnected => Err(DelegateError::InvalidChannel),
        }
    }
}

fn outcome_of<T>(delegate_set: bool, reply: DelegateReply<T>, rejected: DelegateError) -> (outcome:
    Result<T, DelegateError>)
    ensures
        outcome == delegate_outcome(delegate_set, reply, rejected),
{
    if !delegate_set {
        return Err(DelegateError::InvalidDelegator);
    }
    match reply {
        DelegateReply::Answer(value) => Ok(value),
        DelegateReply::Rejected => Err(rejected),
        DelegateReply::Disconnected => Err(DelegateError::InvalidChannel),
    }
}

fn setter_outcome_of(delegate_set: bool, reply: DelegateReply<()>) -> (outcome: Result<
    (),
    DelegateError,
>)
    ensures
        outcome == setter_outcome(delegate_set, reply),
{
    if !delegate_set {
        return Err(DelegateError::InvalidDelegator);
    }
    match reply {
        DelegateReply::Disconnected => Err(DelegateError::InvalidChannel),
        _ => Ok(()),
    }
}

/// Mathematical value of a [`GeckoBridgeState`].
pub struct BridgeStateView {
    pub prefs: Map<Seq<char>, PrefValueView>,
    pub appsservice: bool,
    pub powermanager: bool,
    pub preference: bool,
    pub mobilemanager: bool,
    pub networkmanager: bool,
    pub on_device: bool,
}

impl BridgeStateView {
    /// The delegates that every build expects are set.
    pub open spec fn common_delegates_ready(self) -> bool {
        self.appsservice && self.powermanager && self.preference
    }

    /// The delegates that only a device build expects are set.
    pub open spec fn device_delegates_ready(self) -> bool {
        self.mobilemanager && self.networkmanager
    }

    /// All the delegates that this build expects are set.
    pub open spec fn is_ready(self) -> bool {
        self.common_delegates_ready() && (self.on_device ==> self.device_delegates_ready())
    }
}

/// The state of the bridge.
#[derive(Debug)]
pub struct GeckoBridgeState {
    prefs: StringMap<PrefValue>,
    appsservice: bool,
    powermanager: bool,
    preference: bool,
    mobilemanager: bool,
    networkmanager: bool,
    on_device: bool,
}

impl View for GeckoBridgeState {
    type V = BridgeStateView;

    closed spec fn view(&self) -> BridgeStateView {
        BridgeStateView {
            prefs: self.prefs@.map_values(|value: PrefValue| value@),
            appsservice: self.appsservice,
            powermanager: self.powermanager,
            preference: self.preference,
            mobilemanager: self.mobilemanager,
            networkmanager: self.networkmanager,
            on_device: self.on_device,
        }
    }
}

/// The boolean stored under `name`, if a boolean is stored there.
pub open spec fn bool_pref(prefs: Map<Seq<char>, PrefValueView>, name: Seq<char>) -> Option<bool> {
    if prefs.dom().contains(name) {
        match prefs[name] {
            PrefValueView::Bool(value) => Some(value),
            _ => None,
        }
    } else {
        None
    }
}

/// The integer stored under `name`, if an integer is stored there.
pub open spec fn int_pref(prefs: Map<Seq<char>, PrefValueView>, name: Seq<char>) -> Option<i64> {
    if prefs.dom().contains(name) {
        match prefs[name] {
            PrefValueView::Int(value) => Some(value),
            _ => None,
        }
    } else {
        None
    }
}

/// The string stored under `name`, if a string is stored there.
pub open spec fn char_pref(prefs: Map<Seq<char>, PrefValueView>, name: Seq<char>) -> Option<
    Seq<char>,
> {
    if prefs.dom().contains(name) {
        match prefs[name] {
            PrefValueView::Str(value) => Some(value),
            _ => None,
        }
    } else {
        None
    }
}

impl GeckoBridgeState {
    /// A state with no delegate set and no preference stored. A device
    /// build (`on_device`) expects the device delegates too.
    pub fn new(on_device: bool) -> (state: Self)
        ensures
            state@ == (BridgeStateView {
                prefs: Map::<Seq<char>, PrefValueView>::empty(),
                appsservice: false,
                powermanager: false,
                preference: false,
                mobilemanager: false,
                networkmanager: false,
                on_device,
            }),
    {
        let state = GeckoBridgeState {
            prefs: StringMap::new(),
            appsservice: false,
            powermanager: false,
            preference: false,
            mobilemanager: false,
            networkmanager: false,
            on_device,
        };
        assert(state@.prefs =~= Map::<Seq<char>, PrefValueView>::empty());
        state
    }

    /// Resets the state, so that new delegates can be set: the preferences
    /// and all delegates are forgotten.
    pub fn reset(&mut self)
        ensures
            final(self)@ == (BridgeStateView {
                prefs: Map::<Seq<char>, PrefValueView>::empty(),
                appsservice: false,
                powermanager: false,
                preference: false,
                mobilemanager: false,
                networkmanager: false,
                on_device: old(self)@.on_device,
            }),
    {
        self.prefs = StringMap::new();
        self.powermanager = false;
        self.preference = false;
        self.appsservice = false;
        self.mobilemanager = false;
        self.networkmanager = false;
        assert(self@.prefs =~= Map::<Seq<char>, PrefValueView>::empty());
    }

    /// Whether the delegates common to all builds are set.
    pub fn common_delegates_ready(&self) -> (ready: bool)
        ensures
            ready == self@.common_delegates_ready(),
    {
        self.appsservice && self.powermanager && self.preference
    }

    /// Whether the delegates of device builds are set.
    pub fn device_delegates_ready(&self) -> (ready: bool)
        ensures
            ready == self@.device_delegates_ready(),
    {
        self.mobilemanager && self.networkmanager
    }

    /// Whether all the expected delegates are set.
    pub fn is_ready(&self) -> (ready: bool)
        ensures
            ready == self@.is_ready(),
    {
        self.common_delegates_ready() && (!self.on_device || self.device_delegates_ready())
    }

    pub fn is_apps_service_ready(&self) -> (ready: bool)
        ensures
            ready == self@.appsservice,
    {
        self.appsservice
    }

    /// Records that the power manager delegate is set. The answer tells
    /// whether the observers of the bridge are to be notified now, which is
    /// when all expected delegates are set.
    pub fn set_powermanager_delegate(&mut self) -> (notify: bool)
        ensures
            final(self)@ == (BridgeStateView { powermanager: true, ..old(self)@ }),
            notify == final(self)@.is_ready(),
    {
        self.powermanager = true;
        self.is_ready()
    }

    /// Records that the apps service delegate is set, and tells whether the
    /// observers are to be notified.
    pub fn set_apps_service_delegate(&mut self) -> (notify: bool)
        ensures
            final(self)@ == (BridgeStateView { appsservice: true, ..old(self)@ }),
            notify == final(self)@.is_ready(),
    {
        self.appsservice = true;
        self.is_ready()
    }

    /// Records that the mobile manager delegate is set, and tells whether
    /// the observers are to be notified.
    pub fn set_mobilemanager_delegate(&mut self) -> (notify: bool)
        ensures
            final(self)@ == (BridgeStateView { mobilemanager: true, ..old(self)@ }),
            notify == final(self)@.is_ready(),
    {
        self.mobilemanager = true;
        self.is_ready()
    }

    /// Records that the network manager delegate is set, and tells whether
    /// the observers are to be notified.
    pub fn set_networkmanager_delegate(&mut self) -> (notify: bool)
        ensures
            final(self)@ == (BridgeStateView { networkmanager: true, ..old(self)@ }),
            notify == final(self)@.is_ready(),
    {
        self.networkmanager = true;
        self.is_ready()
    }

    /// Records that the preference delegate is set, and tells whether the
    /// observers are to be notified.
    pub fn set_preference_delegate(&mut self) -> (notify: bool)
        ensures
            final(self)@ == (BridgeStateView { preference: true, ..old(self)@ }),
            notify == final(self)@.is_ready(),
    {
        self.preference = true;
        self.is_ready()
    }

    fn set_pref(&mut self, name: &str, value: PrefValue)
        ensures
            final(self)@ == (BridgeStateView {
                prefs: old(self)@.prefs.insert(name@, value@),
                ..old(self)@
            }),
    {
        self.prefs.set(name, value);
        assert(self@.prefs =~= old(self)@.prefs.insert(name@, value@));
    }

    pub fn set_bool_pref(&mut self, name: String, value: bool)
        ensures
            final(self)@ == (BridgeStateView {
                prefs: old(self)@.prefs.insert(name@, PrefValueView::Bool(value)),
                ..old(self)@
            }),
    {
        self.set_pref(name.as_str(), PrefValue::Bool(value));
    }

    pub fn set_int_pref(&mut self, name: String, value: i64)
        ensures
            final(self)@ == (BridgeStateView {
                prefs: old(self)@.prefs.insert(name@, PrefValueView::Int(value)),
                ..old(self)@
            }),
    {
        self.set_pref(name.as_str(), PrefValue::Int(value));
    }

    pub fn set_char_pref(&mut self, name: String, value: String)
        ensures
            final(self)@ == (BridgeStateView {
                prefs: old(self)@.prefs.insert(name@, PrefValueView::Str(value@)),
                ..old(self)@
            }),
    {
        self.set_pref(name.as_str(), PrefValue::Str(value));
    }

    /// The preference stored under `name`.
    pub fn get_pref(&self, name: &str) -> (found: Option<PrefValue>)
        ensures
            match found {
                Some(value) => self@.prefs.dom().contains(name@) && self@.prefs[name@] == value@,
                None => !self@.prefs.dom().contains(name@),
            },
    {
        match self.prefs.get(name) {
            Some(value) => Some(value.clone()),
            None => None,
        }
    }

    pub fn get_bool_pref(&self, name: &str) -> (found: Option<bool>)
        ensures
            found == bool_pref(self@.prefs, name@),
    {
        match self.prefs.get(name) {
            Some(PrefValue::Bool(value)) => Some(*value),
            _ => None,
        }
    }

    pub fn get_int_pref(&self, name: &str) -> (found: Option<i64>)
        ensures
            found == int_pref(self@.prefs, name@),
    {
        match self.prefs.get(name) {
            Some(PrefValue::Int(value)) => Some(*value),
            _ => None,
        }
    }

    pub fn get_char_pref(&self, name: &str) -> (found: Option<String>)
        ensures
            match found {
                Some(value) => char_pref(self@.prefs, name@) == Some(value@),
                None => char_pref(self@.prefs, name@) is None,
            },
    {
        match self.prefs.get(name) {
            Some(PrefValue::Str(value)) => Some(value.clone()),
            _ => None,
        }
    }

    /// What the reply to the request to switch a screen means: whatever went
    /// wrong is the one error of the screen control.
    pub fn powermanager_set_screen_enabled(&self, reply: DelegateReply<()>) -> (outcome: Result<
        (),
        BridgeError,
    >)
        ensures
            outcome is Ok <==> self@.powermanager && reply is Answer,
    {
        if !self.powermanager {
            return Err(BridgeError);
        }
        match reply {
            DelegateReply::Answer(()) => Ok(()),
            _ => Err(BridgeError),
        }
    }

    /// What the reply to the request for a wakelock means. `known` tells
    /// whether the reference that was answered stands for a wakelock: one
    /// that does not is invalid, as is a refusal of the delegate.
    pub fn powermanager_request_wakelock<T>(&self, reply: DelegateReply<T>, known: bool) -> (outcome:
        Result<T, DelegateError>)
        ensures
            outcome == match delegate_outcome(
                self@.powermanager,
                reply,
                DelegateError::InvalidWakelock,
            ) {
                Ok(wakelock) => if known {
                    Ok(wakelock)
                } else {
                    Err(DelegateError::InvalidWakelock)
                },
                Err(error) => Err(error),
            },
    {
        match outcome_of(self.powermanager, reply, DelegateError::InvalidWakelock) {
            Ok(wakelock) => {
                if known {
                    Ok(wakelock)
                } else {
                    Err(DelegateError::InvalidWakelock)
                }
            },
            Err(error) => Err(error),
        }
    }

    /// What the reply of a wakelock to the question for its topic means.
    /// `known` tells whether the wakelock is known.
    pub fn powermanager_wakelock_get_topic(&self, known: bool, reply: DelegateReply<String>) -> (outcome:
        Result<String, DelegateError>)
        ensures
            outcome == wakelock_outcome(known, reply, DelegateError::InvalidWakelock),
    {
        if !known {
            return Err(DelegateError::InvalidWakelock);
        }
        match reply {
            DelegateReply::Answer(topic) => Ok(topic),
            DelegateReply::Rejected => Err(DelegateError::InvalidWakelock),
            DelegateReply::Disconnected => Err(DelegateError::InvalidChannel),
        }
    }

    /// What the reply of a wakelock to its release means. `known` tells
    /// whether the wakelock is known. A refusal is reported as a channel
    /// error.
    pub fn powermanager_wakelock_unlock(&self, known: bool, reply: DelegateReply<()>) -> (outcome:
        Result<(), DelegateError>)
        ensures
            outcome == wakelock_outcome(known, reply, DelegateError::InvalidChannel),
    {
        if !known {
            return Err(DelegateError::InvalidWakelock);
        }
        match reply {
            DelegateReply::Answer(()) => Ok(()),
            DelegateReply::Rejected => Err(DelegateError::InvalidChannel),
            DelegateReply::Disconnected => Err(DelegateError::InvalidChannel),
        }
    }

    /// What the reply to the request to clear the data of an application
    /// means.
    pub fn apps_service_on_clear(&self, reply: DelegateReply<()>) -> (outcome: Result<
        (),
        DelegateError,
    >)
        ensures
            outcome == delegate_outcome(
                self@.appsservice,
                reply,
                DelegateError::InvalidWebRuntimeService,
            ),
    {
        outcome_of(self.appsservice, reply, DelegateError::InvalidWebRuntimeService)
    }

    /// What the reply to the question for a card information means.
    pub fn mobilemanager_get_cardinfo(&self, reply: DelegateReply<String>) -> (outcome: Result<
        String,
        DelegateError,
    >)
        ensures
            outcome == delegate_outcome(
                self@.mobilemanager,
                reply,
                DelegateError::InvalidWebRuntimeService,
            ),
    {
        outcome_of(self.mobilemanager, reply, DelegateError::InvalidWebRuntimeService)
    }

    /// What the reply to the question for the network operator means.
    pub fn mobilemanager_get_mnc_mcc<T>(&self, reply: DelegateReply<T>) -> (outcome: Result<
        T,
        DelegateError,
    >)
        ensures
            outcome == delegate_outcome(
                self@.mobilemanager,
                reply,
                DelegateError::InvalidWebRuntimeService,
            ),
    {
        outcome_of(self.mobilemanager, reply, DelegateError::InvalidWebRuntimeService)
    }

    /// What the reply to the question for the network state means.
    pub fn networkmanager_get_network_info<T>(&self, reply: DelegateReply<T>) -> (outcome: Result<
        T,
        DelegateError,
    >)
        ensures
            outcome == delegate_outcome(
                self@.networkmanager,
                reply,
                DelegateError::InvalidWebRuntimeService,
            ),
    {
        outcome_of(self.networkmanager, reply, DelegateError::InvalidWebRuntimeService)
    }

    pub fn preference_get_int(&self, reply: DelegateReply<i64>) -> (outcome: Result<
        i64,
        DelegateError,
    >)
        ensures
            outcome == delegate_outcome(
                self@.preference,
                reply,
                DelegateError::InvalidWebRuntimeService,
            ),
    {
        outcome_of(self.preference, reply, DelegateError::InvalidWebRuntimeService)
    }

    pub fn preference_get_char(&self, reply: DelegateReply<String>) -> (outcome: Result<
        String,
        DelegateError,
    >)
        ensures
            outcome == delegate_outcome(
                self@.preference,
                reply,
                DelegateError::InvalidWebRuntimeService,
            ),
    {
        outcome_of(self.preference, reply, DelegateError::InvalidWebRuntimeService)
    }

    pub fn preference_get_bool(&self, reply: DelegateReply<bool>) -> (outcome: Result<
        bool,
        DelegateError,
    >)
        ensures
            outcome == delegate_outcome(
                self@.preference,
                reply,
                DelegateError::InvalidWebRuntimeService,
            ),
    {
        outcome_of(self.preference, reply, DelegateError::InvalidWebRuntimeService)
    }

    pub fn preference_set_int(&self, reply: DelegateReply<()>) -> (outcome: Result<
        (),
        DelegateError,
    >)
        ensures
            outcome == setter_outcome(self@.preference, reply),
    {
        setter_outcome_of(self.preference, reply)
    }

    pub fn preference_set_char(&self, reply: DelegateReply<()>) -> (outcome: Result<
        (),
        DelegateError,
    >)
        ensures
            outcome == setter_outcome(self@.preference, reply),
    {
        setter_outcome_of(self.preference, reply)
    }

    pub fn preference_set_bool(&self, reply: DelegateReply<()>) -> (outcome: Result<
        (),
        DelegateError,
    >)
        ensures
            outcome == setter_outcome(self@.preference, reply),
    {
        setter_outcome_of(self.preference, reply)
    }
}

} // verus!
