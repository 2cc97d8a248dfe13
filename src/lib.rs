use vstd::prelude::*;
use vstd::string::*;

verus! {

/// A slot that starts empty and is meant to be filled once, then read any
/// number of times.
///
/// The guarded writes (`set`, `get_or_init`) never replace a stored value;
/// `alter` and `get_mut` are the explicit ways to change one.
pub struct DeferredBox<T> {
    slot: Option<T>,
}

/// The error of a guarded write on a box that already holds a value.
#[derive(Clone, Copy, Debug, PartialEq, Eq, Structural)]
pub struct DeferredBoxSetError();

impl DeferredBoxSetError {
    /// The fixed human-readable message of this error.
    pub fn message(&self) -> (r: String)
        ensures
            r@ == set_error_message(),
    {
        String::from_str("value has been set, trying to set it twice")
    }
}

/// The text that `DeferredBoxSetError::message` returns.
pub open spec fn set_error_message() -> Seq<char> {
    "value has been set, trying to set it twice"@
}

/// The contents after a guarded write of `fresh` into `slot`: an empty slot
/// takes `fresh`, a filled one keeps what it holds.
pub open spec fn filled_with<T>(slot: Option<T>, fresh: T) -> Option<T> {
    match slot {
        Some(v) => Some(v),
        None => Some(fresh),
    }
}

/// What a guarded write into `slot` reports: success exactly when it was empty.
pub open spec fn set_result<T>(slot: Option<T>) -> Result<(), DeferredBoxSetError> {
    match slot {
        Some(_) => Err(DeferredBoxSetError()),
        None => Ok(()),
    }
}

/// The contents after an unconditional write of `value`, whatever `slot` held.
pub open spec fn forced<T>(slot: Option<T>, value: T) -> Option<T> {
    Some(value)
}

/// The contents after a run of guarded writes, applied from first to last.
pub open spec fn filled_by_all<T>(slot: Option<T>, writes: Seq<T>) -> Option<T>
    decreases writes.len(),
{
    if writes.len() == 0 {
        slot
    } else {
        filled_by_all(filled_with(slot, writes[0]), writes.drop_first())
    }
}

/// First write wins: a guarded write that succeeds stores `v`, and a second
/// guarded write of any `v2` then fails and leaves `v` stored.
pub proof fn lemma_first_write_wins<T>(slot: Option<T>, v: T, v2: T)
    requires
        set_result(slot) is Ok,
    ensures
        filled_with(slot, v) == Some(v),
        set_result(filled_with(slot, v)) == Err::<(), DeferredBoxSetError>(DeferredBoxSetError()),
        filled_with(filled_with(slot, v), v2) == Some(v),
{
}

/// Lazy initialisation happens once: on an empty box the value that the
/// initialiser produced is stored, and a later `get_or_init` on that box can
/// only return that same value, whatever its own initialiser would produce.
pub proof fn lemma_init_once<T>(slot: Option<T>, first: T)
    requires
        slot is None,
    ensures
        filled_with(slot, first) == Some(first),
        forall|later: T| filled_with(filled_with(slot, first), later) == Some(later) ==> later == first,
{
}

/// Reads are stable: once a guarded write of `v` has succeeded, the box holds
/// `v` after any run of further guarded writes, so every read returns `v`.
pub proof fn lemma_reads_stay_after_write<T>(slot: Option<T>, v: T, writes: Seq<T>)
    requires
        set_result(slot) is Ok,
    ensures
        filled_by_all(filled_with(slot, v), writes) == Some(v),
    decreases writes.len(),
{
    if writes.len() > 0 {
        lemma_reads_stay_after_write(slot, v, writes.drop_first());
    }
}

/// The last unconditional write wins: `alter(v1)` then `alter(v2)` leaves
/// `v2` stored, whatever the box held before.
pub proof fn lemma_last_alter_wins<T>(slot: Option<T>, v1: T, v2: T)
    ensures
        forced(forced(slot, v1), v2) == Some(v2),
{
}

/// The debug text of a box, given the debug text of its value (`None` while
/// the box is empty).
pub open spec fn debug_rendering(value_text: Option<Seq<char>>) -> Seq<char> {
    match value_text {
        None => "DeferredBox { None })"@,
        Some(t) => "DeferredBox { Some("@ + t + ") })"@,
    }
}

/// Builds the debug text of a box from the debug text of its value, or from
/// `None` for an empty box.
pub fn render_debug(value_text: Option<&str>) -> (r: String)
    ensures
        r@ == debug_rendering(
            match value_text {
                Some(t) => Some(t@),
                None => None,
            },
        ),
{
    match value_text {
        None => String::from_str("DeferredBox { None })"),
        Some(t) => {
            let mut r = String::from_str("DeferredBox { Some(");
            r.append(t);
            r.append(") })");
            r
        },
    }
}

/// Relies on std's `{:?}` formatting (the `Debug` impl of `T`) to render a
/// stored value; nothing is assumed of the text.
#[verifier::external_body]
fn value_debug_text<T: std::fmt::Debug>(value: &T) -> String {
    format!("{:?}", value)
}

impl<T> View for DeferredBox<T> {
    type V = Option<T>;

    /// The stored value, or `None` while the box is empty.
    closed spec fn view(&self) -> Option<T> {
        self.slot
    }
}

impl<T> DeferredBox<T> {
    /// An empty box.
    pub fn new() -> (r: Self)
        ensures
            r@ is None,
    {
        DeferredBox { slot: None }
    }

    /// A shared reference to the stored value, or `None` while empty.
    pub fn get(&self) -> (r: Option<&T>)
        ensures
            r is Some <==> self@ is Some,
            r is Some ==> *r->0 == self@->0,
    {
        self.slot.as_ref()
    }

    /// Stores `value` if the box is empty; otherwise leaves the stored value
    /// in place and fails.
    pub fn set(&mut self, value: T) -> (r: Result<(), DeferredBoxSetError>)
        ensures
            r == set_result(old(self)@),
            final(self)@ == filled_with(old(self)@, value),
    {
        if self.slot.is_some() {
            return Err(DeferredBoxSetError());
        }
        self.slot = Some(value);
        Ok(())
    }

    /// The stored value; on an empty box, first stores what `init` returns.
    /// `init` is called only when the box is empty.
    pub fn get_or_init<F>(&mut self, init: F) -> (r: &T) where F: FnOnce() -> T
        requires
            old(self)@ is None ==> init.requires(()),
        ensures
            old(self)@ is None ==> init.ensures((), *r),
            old(self)@ is Some ==> *r == old(self)@->0,
            final(self)@ == filled_with(old(self)@, *r),
    {
        if self.slot.is_none() {
            self.slot = Some(init());
        }
        self.slot.as_ref().unwrap()
    }

    /// Mutable access to the stored value, or `None` while empty.
    ///
    /// What is written through the returned reference becomes the stored value.
    pub fn get_mut(&mut self) -> (r: Option<&mut T>)
        ensures
            r is Some <==> old(self)@ is Some,
            r is Some ==> *r->0 == old(self)@->0,
            r is Some ==> final(self)@ == Some(*final(r->0)),
            r is None ==> final(self)@ is None,
    {
        match &mut self.slot {
            Some(v) => Some(v),
            None => None,
        }
    }

    /// Stores `value` whether or not the box already holds one, dropping any
    /// earlier value.
    pub fn alter(&mut self, value: T)
        ensures
            final(self)@ == forced(old(self)@, value),
    {
        self.slot = Some(value);
    }
}

impl<T: std::fmt::Debug> DeferredBox<T> {
    /// The debug text of the box: an absent marker while empty, otherwise a
    /// frame around the stored value's own debug text.
    pub fn debug_string(&self) -> (r: String)
        ensures
            self@ is None ==> r@ == debug_rendering(None),
            self@ is Some ==> exists|t: Seq<char>| r@ == debug_rendering(Some(t)),
    {
        match &self.slot {
            None => render_debug(None),
            Some(v) => {
                let text = value_debug_text(v);
                let r = render_debug(Some(text.as_str()));
                assert(r@ == debug_rendering(Some(text@)));
                r
            },
        }
    }
}

impl<T> Default for DeferredBox<T> {
    /// An empty box, as `new` makes it.
    fn default() -> (r: Self)
        ensures
            r@ is None,
    {
        Self::new()
    }
}

} // verus!
