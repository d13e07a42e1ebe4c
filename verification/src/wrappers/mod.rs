//! Typed layer over the COM API.
//!
//! Every call into the host answers with a status code and out-parameters. The functions
//! of this module turn such an answer into a value or an [`Error`].

pub mod iter;
pub mod text;
pub mod types;

use std::marker::PhantomData;

use vstd::prelude::*;

use windows::Win32::System::Com::VARIANT;

use crate::sys::com_enums::ITPlayButtonState;
use crate::sys::{E_NOINTERFACE, E_UNEXPECTED, HRESULT, LONG, NS_E_PROPERTY_NOT_FOUND, S_OK, VARIANT_BOOL};

verus! {

/// Why a call did not give a value
#[derive(Debug, Clone, Copy, PartialEq, Eq, Structural)]
pub enum Error {
    /// The host answered with a status code other than success. The code is kept as it came.
    Status(HRESULT),
    /// The object does not implement the interface that the call is declared on.
    NotImplemented,
    /// A lookup by index, name or identifier had no result.
    ItemNotFound,
    /// A generic object is neither a source, nor a playlist, nor a track.
    UnresolvedKind,
    /// The host reported success, but sent a number that its enumeration does not define.
    InvalidValue(LONG),
}

impl Error {
    /// The status code that stands for this error where one is needed.
    pub open spec fn status_code(self) -> HRESULT {
        match self {
            Error::Status(status) => status,
            Error::NotImplemented => E_NOINTERFACE,
            Error::ItemNotFound => NS_E_PROPERTY_NOT_FOUND,
            Error::UnresolvedKind => NS_E_PROPERTY_NOT_FOUND,
            Error::InvalidValue(_) => E_UNEXPECTED,
        }
    }

    /// The status code that stands for this error where one is needed.
    ///
    /// A status failure keeps the code of the host. A lookup without a result and an
    /// object of no known kind share the closest matching code that the platform defines.
    pub fn code(&self) -> (status: HRESULT)
        ensures
            status == self.status_code(),
    {
        match self {
            Error::Status(status) => *status,
            Error::NotImplemented => E_NOINTERFACE,
            Error::ItemNotFound => NS_E_PROPERTY_NOT_FOUND,
            Error::UnresolvedKind => NS_E_PROPERTY_NOT_FOUND,
            Error::InvalidValue(_) => E_UNEXPECTED,
        }
    }
}

/// The raw tri-state boolean that is sent for `value`.
pub fn variant_bool(value: bool) -> (raw: VARIANT_BOOL)
    ensures
        raw == (if value { crate::sys::TRUE } else { crate::sys::FALSE }),
        (raw != 0) == value,
{
    if value {
        crate::sys::TRUE
    } else {
        crate::sys::FALSE
    }
}

/// The boolean that a raw tri-state boolean means: everything but zero is true.
pub fn as_bool(raw: VARIANT_BOOL) -> (value: bool)
    ensures
        value == (raw != 0),
{
    raw != 0
}

/// Turns the status code of a call without out-parameters into a result.
///
/// Success is the status code zero, and nothing else.
pub fn status_reply(status: HRESULT) -> (outcome: Result<(), Error>)
    ensures
        status == S_OK ==> outcome == Ok::<(), Error>(()),
        status != S_OK ==> outcome == Err::<(), Error>(Error::Status(status)),
{
    if status == S_OK {
        Ok(())
    } else {
        Err(Error::Status(status))
    }
}

/// Turns the answer of a call with one out-parameter into a result: the value on
/// success, the status code otherwise.
pub fn value_reply<T>(status: HRESULT, value: T) -> (outcome: Result<T, Error>)
    ensures
        status == S_OK ==> outcome == Ok::<T, Error>(value),
        status != S_OK ==> outcome == Err::<T, Error>(Error::Status(status)),
{
    if status == S_OK {
        Ok(value)
    } else {
        Err(Error::Status(status))
    }
}

/// Turns the answer of a call that gives a value of an enumeration into a result.
///
/// `raw` is the number that the host sent, and `decoded` the value that the enumeration
/// has for it, if it has one. A number without a value is refused.
pub fn enum_reply<E>(status: HRESULT, raw: LONG, decoded: Option<E>) -> (outcome: Result<E, Error>)
    ensures
        status != S_OK ==> outcome == Err::<E, Error>(Error::Status(status)),
        status == S_OK && decoded.is_none() ==> outcome == Err::<E, Error>(Error::InvalidValue(raw)),
        status == S_OK && decoded.is_some() ==> outcome == Ok::<E, Error>(decoded.unwrap()),
{
    if status != S_OK {
        Err(Error::Status(status))
    } else {
        match decoded {
            None => Err(Error::InvalidValue(raw)),
            Some(value) => Ok(value),
        }
    }
}

/// Turns the answer of a call that gives a tri-state boolean into a result.
pub fn bool_reply(status: HRESULT, raw: VARIANT_BOOL) -> (outcome: Result<bool, Error>)
    ensures
        status == S_OK ==> outcome == Ok::<bool, Error>(raw != 0),
        status != S_OK ==> outcome == Err::<bool, Error>(Error::Status(status)),
{
    value_reply(status, as_bool(raw))
}

/// What the answer of a call that gives an object means.
///
/// A failure status wins. A success status without an object means that the host found
/// nothing: it is reported as such, never as an empty object.
pub open spec fn object_outcome<T>(status: HRESULT, object: Option<T>) -> Result<T, Error> {
    if status != S_OK {
        Err(Error::Status(status))
    } else if object.is_none() {
        Err(Error::ItemNotFound)
    } else {
        Ok(object.unwrap())
    }
}

/// Turns the answer of a call that gives an object into a result.
///
/// A failure status wins. A success status without an object means that the host found
/// nothing: it is reported as such, never as an empty object.
pub fn object_reply<T>(status: HRESULT, object: Option<T>) -> (outcome: Result<T, Error>)
    ensures
        outcome == object_outcome(status, object),
{
    if status != S_OK {
        Err(Error::Status(status))
    } else {
        match object {
            None => Err(Error::ItemNotFound),
            Some(found) => Ok(found),
        }
    }
}

/// Turns the answer of a cast to another interface into a result: the view where the
/// object implements the interface, and `NotImplemented` where it does not.
pub fn cast_reply<T>(view: Option<T>) -> (outcome: Result<T, Error>)
    ensures
        view.is_some() ==> outcome == Ok::<T, Error>(view.unwrap()),
        view.is_none() ==> outcome == Err::<T, Error>(Error::NotImplemented),
{
    match view {
        Some(cast) => Ok(cast),
        None => Err(Error::NotImplemented),
    }
}

/// Where the host holds `count` items and answers every index with success, and with an
/// object for the indices from 1 to `count` and no others, a lookup by index gives the
/// item for each of these indices, and finds nothing at the index 0 and at the index
/// after the last.
pub proof fn lemma_item_lookup_bounds<T>(count: LONG, host: spec_fn(LONG) -> Option<T>, index: LONG)
    requires
        count >= 0,
        forall|i: LONG| (#[trigger] host(i)).is_some() <==> 1 <= i <= count,
    ensures
        1 <= index <= count ==> object_outcome(S_OK, host(index)) == Ok::<T, Error>(
            host(index).unwrap(),
        ),
        index == 0 || index == count + 1 ==> object_outcome(S_OK, host(index)) == Err::<T, Error>(
            Error::ItemNotFound,
        ),
{
}

/// A collection of the host: it knows its current size and hands out its items by their
/// 1-based index.
///
/// Both answers are fetched from the host at every call, so two calls may differ.
pub trait Iterable {
    type Item;

    /// Whether `answer` is one that this collection may give when asked for its size.
    /// A collection that says nothing of its answers may give any.
    open spec fn count_answer(&self, answer: Result<LONG, Error>) -> bool {
        true
    }

    /// Whether `answer` is one that this collection may give when asked for the item at
    /// `index`. A collection that says nothing of its answers may give any.
    open spec fn item_answer(&self, index: LONG, answer: Result<Self::Item, Error>) -> bool {
        true
    }

    // Provided by the COM API
    fn Count(&self) -> (answer: Result<LONG, Error>)
        ensures
            self.count_answer(answer),
    ;

    // Provided by the COM API
    fn item(&self, index: LONG) -> (answer: Result<Self::Item, Error>)
        ensures
            self.item_answer(index, answer),
    ;
}

/// The four IDs that uniquely identify an object
#[derive(Debug, Clone, Copy, PartialEq, Eq, Structural)]
pub struct ObjectIDs {
    pub sourceID: LONG,
    pub playlistID: LONG,
    pub trackID: LONG,
    pub databaseID: LONG,
}

impl ObjectIDs {
    /// Turns the answer of the host to a query for the four IDs of an object into a result.
    pub fn from_reply(
        status: HRESULT,
        sourceID: LONG,
        playlistID: LONG,
        trackID: LONG,
        databaseID: LONG,
    ) -> (outcome: Result<ObjectIDs, Error>)
        ensures
            status == S_OK ==> outcome == Ok::<ObjectIDs, Error>(
                (ObjectIDs { sourceID, playlistID, trackID, databaseID }),
            ),
            status != S_OK ==> outcome == Err::<ObjectIDs, Error>(Error::Status(status)),
    {
        value_reply(status, ObjectIDs { sourceID, playlistID, trackID, databaseID })
    }
}

/// Enum of all kinds of object that the host hands out as a generic object
#[derive(Debug)]
pub enum PossibleIITObject<S, P, T> {
    Source(S),
    Playlist(P),
    Track(T),
}

impl<S, P, T> PossibleIITObject<S, P, T> {
    /// The kind that a generic object resolves to, given the views that its casts to a
    /// source, to a playlist and to a track gave: the first that is there, in this order.
    pub open spec fn resolved(source: Option<S>, playlist: Option<P>, track: Option<T>) -> Result<
        Self,
        Error,
    > {
        if source.is_some() {
            Ok(PossibleIITObject::Source(source.unwrap()))
        } else if playlist.is_some() {
            Ok(PossibleIITObject::Playlist(playlist.unwrap()))
        } else if track.is_some() {
            Ok(PossibleIITObject::Track(track.unwrap()))
        } else {
            Err(Error::UnresolvedKind)
        }
    }

    /// Resolves a generic object from the views that its three casts gave.
    ///
    /// An object that is a source, a playlist or a track, and nothing else, resolves to
    /// that kind. An object that is none of them does not resolve.
    pub fn from_casts(source: Option<S>, playlist: Option<P>, track: Option<T>) -> (outcome: Result<
        Self,
        Error,
    >)
        ensures
            outcome == Self::resolved(source, playlist, track),
            source.is_some() && playlist.is_none() && track.is_none() ==> outcome == Ok::<
                Self,
                Error,
            >(PossibleIITObject::Source(source.unwrap())),
            source.is_none() && playlist.is_some() && track.is_none() ==> outcome == Ok::<
                Self,
                Error,
            >(PossibleIITObject::Playlist(playlist.unwrap())),
            source.is_none() && playlist.is_none() && track.is_some() ==> outcome == Ok::<
                Self,
                Error,
            >(PossibleIITObject::Track(track.unwrap())),
            source.is_none() && playlist.is_none() && track.is_none() ==> outcome == Err::<
                Self,
                Error,
            >(Error::UnresolvedKind),
    {
        match source {
            Some(found) => Ok(PossibleIITObject::Source(found)),
            None => match playlist {
                Some(found) => Ok(PossibleIITObject::Playlist(found)),
                None => match track {
                    Some(found) => Ok(PossibleIITObject::Track(found)),
                    None => Err(Error::UnresolvedKind),
                },
            },
        }
    }

    /// Resolves a generic object by trying its casts one after the other: to a source
    /// first, then to a playlist, then to a track. The first cast that gives a view
    /// decides, and the casts after it are not made.
    pub fn resolve<F1, F2, F3>(as_source: F1, as_playlist: F2, as_track: F3) -> (outcome: Result<
        Self,
        Error,
    >) where F1: FnOnce() -> Option<S>, F2: FnOnce() -> Option<P>, F3: FnOnce() -> Option<T>
        requires
            call_requires(as_source, ()),
            call_requires(as_playlist, ()),
            call_requires(as_track, ()),
        ensures
            match outcome {
                Ok(PossibleIITObject::Source(found)) => call_ensures(as_source, (), Some(found)),
                Ok(PossibleIITObject::Playlist(found)) => {
                    &&& call_ensures(as_source, (), None)
                    &&& call_ensures(as_playlist, (), Some(found))
                },
                Ok(PossibleIITObject::Track(found)) => {
                    &&& call_ensures(as_source, (), None)
                    &&& call_ensures(as_playlist, (), None)
                    &&& call_ensures(as_track, (), Some(found))
                },
                Err(error) => {
                    &&& error == Error::UnresolvedKind
                    &&& call_ensures(as_source, (), None)
                    &&& call_ensures(as_playlist, (), None)
                    &&& call_ensures(as_track, (), None)
                },
            },
    {
        match as_source() {
            Some(found) => Ok(PossibleIITObject::Source(found)),
            None => match as_playlist() {
                Some(found) => Ok(PossibleIITObject::Playlist(found)),
                None => match as_track() {
                    Some(found) => Ok(PossibleIITObject::Track(found)),
                    None => Err(Error::UnresolvedKind),
                },
            },
        }
    }

    pub fn as_source(&self) -> (source: Option<&S>)
        ensures
            source == match *self {
                PossibleIITObject::Source(s) => Some(&s),
                _ => None,
            },
    {
        match self {
            PossibleIITObject::Source(s) => Some(s),
            _ => None,
        }
    }

    pub fn as_playlist(&self) -> (playlist: Option<&P>)
        ensures
            playlist == match *self {
                PossibleIITObject::Playlist(p) => Some(&p),
                _ => None,
            },
    {
        match self {
            PossibleIITObject::Playlist(p) => Some(p),
            _ => None,
        }
    }

    pub fn as_track(&self) -> (track: Option<&T>)
        ensures
            track == match *self {
                PossibleIITObject::Track(t) => Some(&t),
                _ => None,
            },
    {
        match self {
            PossibleIITObject::Track(t) => Some(t),
            _ => None,
        }
    }
}

/// The three items of a `ConversionStatus`
#[derive(Debug)]
pub struct ConversionStatus {
    pub trackName: String,
    pub progressValue: LONG,
    pub maxProgressValue: LONG,
}

impl ConversionStatus {
    /// Turns the answer of the host to a query for the state of a conversion into a
    /// result. The name is decoded as every text of the host is: units that are the
    /// UTF-16 of a text give that text.
    pub fn from_reply(
        status: HRESULT,
        trackName: Vec<u16>,
        progressValue: LONG,
        maxProgressValue: LONG,
    ) -> (outcome: Result<ConversionStatus, Error>)
        ensures
            status != S_OK ==> outcome == Err::<ConversionStatus, Error>(Error::Status(status)),
            status == S_OK ==> outcome.is_ok() && outcome.unwrap().trackName@ == text::lossy_text(
                text::until_nul(trackName@),
            ) && outcome.unwrap().progressValue == progressValue
                && outcome.unwrap().maxProgressValue == maxProgressValue,
            status == S_OK ==> forall|valid: Seq<char>| #[trigger]
                text::utf16_of(valid) == text::until_nul(trackName@)
                    ==> outcome.unwrap().trackName@ == valid,
    {
        if status != S_OK {
            Err(Error::Status(status))
        } else {
            Ok(ConversionStatus { trackName: text::from_wide(trackName), progressValue, maxProgressValue })
        }
    }
}

/// Turns the answer of a call that gives a wide string into a result: on success, the
/// text that the units decode to up to their first nul. Units that are the UTF-16 of a
/// text give that text.
pub fn text_reply(status: HRESULT, units: Vec<u16>) -> (outcome: Result<String, Error>)
    ensures
        status != S_OK ==> outcome == Err::<String, Error>(Error::Status(status)),
        status == S_OK ==> outcome.is_ok() && outcome.unwrap()@ == text::lossy_text(
            text::until_nul(units@),
        ),
        status == S_OK ==> forall|valid: Seq<char>| #[trigger]
            text::utf16_of(valid) == text::until_nul(units@) ==> outcome.unwrap()@ == valid,
{
    if status != S_OK {
        Err(Error::Status(status))
    } else {
        Ok(text::from_wide(units))
    }
}

/// The three items of a `PlayerButtonState`
#[derive(Debug, Clone, Copy, PartialEq, Eq, Structural)]
pub struct PlayerButtonState {
    pub previousEnabled: bool,
    pub playPauseStopState: ITPlayButtonState,
    pub nextEnabled: bool,
}

impl PlayerButtonState {
    /// Turns the answer of the host to a query for the state of the player buttons into a
    /// result. A number that is no state of the play button is refused.
    pub fn from_reply(
        status: HRESULT,
        previousEnabled: VARIANT_BOOL,
        playPauseStopState: LONG,
        nextEnabled: VARIANT_BOOL,
    ) -> (outcome: Result<PlayerButtonState, Error>)
        ensures
            status != S_OK ==> outcome == Err::<PlayerButtonState, Error>(Error::Status(status)),
            status == S_OK && !(0 <= playPauseStopState <= 5) ==> outcome == Err::<
                PlayerButtonState,
                Error,
            >(Error::InvalidValue(playPauseStopState)),
            status == S_OK && 0 <= playPauseStopState <= 5 ==> outcome.is_ok()
                && outcome.unwrap().previousEnabled == (previousEnabled != 0)
                && outcome.unwrap().playPauseStopState.raw() == playPauseStopState
                && outcome.unwrap().nextEnabled == (nextEnabled != 0),
    {
        if status != S_OK {
            Err(Error::Status(status))
        } else {
            match ITPlayButtonState::from_i32(playPauseStopState) {
                None => Err(Error::InvalidValue(playPauseStopState)),
                Some(state) => Ok(
                    PlayerButtonState {
                        previousEnabled: as_bool(previousEnabled),
                        playPauseStopState: state,
                        nextEnabled: as_bool(nextEnabled),
                    },
                ),
            }
        }
    }
}

/// `windows::Win32::System::Com::VARIANT`: the slot in which COM takes a value of any
/// type. It is carried through as it is, and nothing is known of what it holds.
#[verifier::external_type_specification]
#[verifier::external_body]
pub struct ExVARIANT(windows::Win32::System::Com::VARIANT);

/// A COM `VARIANT` that points to an object, for calls that take any object
///
/// It borrows from the object it points to, and so cannot be kept longer than the object.
pub struct Variant<'a, T: 'a> {
    inner: VARIANT,
    lifetime: PhantomData<&'a T>,
}

impl<'a, T> Variant<'a, T> {
    /// The wrapped `VARIANT`. It is all that a view holds: the marker beside it only
    /// carries the lifetime of the borrow.
    pub closed spec fn raw(self) -> VARIANT {
        self.inner
    }

    /// Wraps a `VARIANT` that points to `source`, for as long as `source` is borrowed.
    pub fn new(source: &'a T, inner: VARIANT) -> (variant: Self)
        ensures
            variant.raw() == inner,
    {
        Self { inner, lifetime: PhantomData }
    }

    /// Get the wrapped `VARIANT`
    pub fn as_raw(&self) -> (raw: &VARIANT)
        ensures
            *raw == self.raw(),
    {
        &self.inner
    }
}

} // verus!
