//! The session registry: at most one live mirroring session per device.
//!
//! The registry is generic over the handle `H` of the external process, which
//! the caller owns and drives; it decides whether a stream request reuses a
//! session or needs a new one, and where a command goes.
use vstd::prelude::*;
use crate::coords::NormPoint;
use crate::error::ControlError;
use crate::text::same_text;
use crate::touch::{touch_command, touch_kind_of, touch_line, terminated_line};

verus! {

/// One live mirroring process for a device.
pub struct Session<H> {
    pub udid: String,
    pub stream_url: String,
    pub handle: H,
}

/// What a stream request must do for its device.
#[derive(Debug)]
pub enum StreamPlan {
    /// A session is cached: stream from this URL.
    Reuse(String),
    /// No session is cached: start one.
    Spawn,
}

/// A command ready for a session: where it goes, and the line to write.
#[derive(Debug)]
pub struct CommandRoute {
    pub index: usize,
    pub line: String,
}

/// Device identifiers mapped to their live sessions.
#[verifier::reject_recursive_types(H)]
pub struct SessionRegistry<H> {
    entries: Vec<Session<H>>,
}

impl<H> SessionRegistry<H> {
    /// The cached sessions.
    pub closed spec fn sessions(&self) -> Seq<Session<H>> {
        self.entries@
    }

    /// Whether a session is cached for `udid`.
    pub open spec fn has_device(&self, udid: Seq<char>) -> bool {
        exists|i: int| 0 <= i < self.sessions().len() && #[trigger] self.sessions()[i].udid@ == udid
    }

    /// No two cached sessions share a device identifier.
    pub open spec fn wf(&self) -> bool {
        forall|i: int, j: int|
            0 <= i < self.sessions().len() && 0 <= j < self.sessions().len()
                && #[trigger] self.sessions()[i].udid@ == #[trigger] self.sessions()[j].udid@ ==> i == j
    }

    /// The position of the session cached for `udid`.
    pub open spec fn index_of(&self, udid: Seq<char>) -> int {
        choose|i: int| 0 <= i < self.sessions().len() && #[trigger] self.sessions()[i].udid@ == udid
    }

    /// Device identifiers mapped to the stream URLs of their sessions.
    pub open spec fn urls(&self) -> Map<Seq<char>, Seq<char>> {
        Map::new(|k: Seq<char>| self.has_device(k), |k: Seq<char>| self.sessions()[self.index_of(k)].stream_url@)
    }

    /// An empty registry.
    pub fn new() -> (r: SessionRegistry<H>)
        ensures
            r.wf(),
            r.sessions().len() == 0,
            r.urls() == Map::<Seq<char>, Seq<char>>::empty(),
    {
        let r = SessionRegistry { entries: Vec::new() };
        assert(r.urls() =~= Map::<Seq<char>, Seq<char>>::empty());
        r
    }

    /// Number of cached sessions.
    pub fn len(&self) -> (r: usize)
        ensures
            r == self.sessions().len(),
    {
        self.entries.len()
    }

    /// The session at `index`.
    pub fn session(&self, index: usize) -> (r: &Session<H>)
        requires
            index < self.sessions().len(),
        ensures
            *r == self.sessions()[index as int],
    {
        &self.entries[index]
    }

    /// Where the session for `udid` stands, if one is cached.
    pub fn find(&self, udid: &str) -> (r: Option<usize>)
        ensures
            match r {
                Some(i) => i < self.sessions().len() && self.sessions()[i as int].udid@ == udid@,
                None => !self.has_device(udid@),
            },
    {
        let mut i: usize = 0;
        while i < self.entries.len()
            invariant
                i <= self.entries@.len(),
                forall|j: int| 0 <= j < i ==> #[trigger] self.entries@[j].udid@ != udid@,
            decreases self.entries@.len() - i,
        {
            if same_text(self.entries[i].udid.as_str(), udid) {
                return Some(i);
            }
            i = i + 1;
        }
        None
    }

    /// Whether a stream request for `udid` reuses a cached session, and its
    /// URL, or must start a new one.
    pub fn plan_stream(&self, udid: &str) -> (r: StreamPlan)
        requires
            self.wf(),
        ensures
            match r {
                StreamPlan::Reuse(url) => self.urls().contains_key(udid@) && url@ == self.urls()[udid@],
                StreamPlan::Spawn => !self.urls().contains_key(udid@),
            },
    {
        match self.find(udid) {
            Some(i) => {
                proof {
                    self.lemma_index_of(i as int);
                }
                StreamPlan::Reuse(self.entries[i].stream_url.clone())
            },
            None => StreamPlan::Spawn,
        }
    }

    /// Caches `session` for its device. A session already cached for that
    /// device is taken out and handed back, for the caller to terminate.
    pub fn insert(&mut self, session: Session<H>) -> (replaced: Option<Session<H>>)
        requires
            old(self).wf(),
        ensures
            final(self).wf(),
            final(self).urls() == old(self).urls().insert(session.udid@, session.stream_url@),
            final(self).has_device(session.udid@),
            final(self).sessions()[final(self).index_of(session.udid@)] == session,
            forall|k: Seq<char>|
                k != session.udid@ && #[trigger] old(self).has_device(k) ==> final(self).has_device(k)
                    && final(self).sessions()[final(self).index_of(k)] == old(self).sessions()[old(
                    self,
                ).index_of(k)],
            final(self).sessions().len() == (if old(self).has_device(session.udid@) {
                old(self).sessions().len()
            } else {
                old(self).sessions().len() + 1
            }),
            match replaced {
                Some(s) => old(self).has_device(session.udid@) && s == old(self).sessions()[old(
                    self,
                ).index_of(session.udid@)],
                None => !old(self).has_device(session.udid@),
            },
    {
        let ghost key = session.udid@;
        let ghost url = session.stream_url@;
        let ghost before = *self;
        match self.find(session.udid.as_str()) {
            Some(i) => {
                proof {
                    before.lemma_index_of(i as int);
                }
                let old_session = self.entries.remove(i);
                self.entries.push(session);
                proof {
                    let e0 = before.entries@;
                    let e1 = self.entries@;
                    assert(e1 =~= e0.remove(i as int).push(e1.last()));
                    assert forall|a: int, b: int|
                        0 <= a < e1.len() && 0 <= b < e1.len() && #[trigger] e1[a].udid@
                            == #[trigger] e1[b].udid@ implies a == b by {
                        let oa = if a < i { a } else { a + 1 };
                        let ob = if b < i { b } else { b + 1 };
                        if a == e1.len() - 1 && b != e1.len() - 1 {
                            assert(e0[ob].udid@ == e0[i as int].udid@);
                        } else if b == e1.len() - 1 && a != e1.len() - 1 {
                            assert(e0[oa].udid@ == e0[i as int].udid@);
                        } else if a != e1.len() - 1 && b != e1.len() - 1 {
                            assert(e0[oa].udid@ == e0[ob].udid@);
                        }
                    }
                    self.lemma_urls_after(before, i as int, key, url);
                    assert forall|k: Seq<char>| k != key && #[trigger] before.has_device(k) implies self.has_device(k)
                        && self.sessions()[self.index_of(k)] == before.sessions()[before.index_of(k)] by {
                        self.lemma_kept(before, i as int, key, k);
                    }
                    self.lemma_index_of(self.entries@.len() - 1);
                }
                Some(old_session)
            },
            None => {
                self.entries.push(session);
                proof {
                    let e0 = before.entries@;
                    let e1 = self.entries@;
                    assert forall|a: int, b: int|
                        0 <= a < e1.len() && 0 <= b < e1.len() && #[trigger] e1[a].udid@
                            == #[trigger] e1[b].udid@ implies a == b by {
                        if a == e1.len() - 1 && b != e1.len() - 1 {
                            assert(e0[b].udid@ == key);
                        } else if b == e1.len() - 1 && a != e1.len() - 1 {
                            assert(e0[a].udid@ == key);
                        }
                    }
                    self.lemma_urls_after(before, -1, key, url);
                    assert forall|k: Seq<char>| k != key && #[trigger] before.has_device(k) implies self.has_device(k)
                        && self.sessions()[self.index_of(k)] == before.sessions()[before.index_of(k)] by {
                        self.lemma_kept(before, -1, key, k);
                    }
                    self.lemma_index_of(self.entries@.len() - 1);
                }
                None
            },
        }
    }

    /// The cached session at `i` is the one `index_of` picks for its device.
    proof fn lemma_index_of(&self, i: int)
        requires
            self.wf(),
            0 <= i < self.sessions().len(),
        ensures
            self.has_device(self.sessions()[i].udid@),
            self.index_of(self.sessions()[i].udid@) == i,
    {
        let k = self.sessions()[i].udid@;
        assert(self.sessions()[i].udid@ == k);
        let j = self.index_of(k);
        assert(self.sessions()[j].udid@ == k);
    }

    /// A device other than `key` keeps its session when `key` is cached.
    proof fn lemma_kept(&self, before: Self, i: int, key: Seq<char>, k: Seq<char>)
        requires
            before.wf(),
            self.wf(),
            self.sessions().len() > 0,
            self.sessions().last().udid@ == key,
            i >= 0 ==> 0 <= i < before.sessions().len() && before.sessions()[i].udid@ == key
                && self.sessions() == before.sessions().remove(i).push(self.sessions().last()),
            i < 0 ==> !before.has_device(key) && self.sessions() == before.sessions().push(
                self.sessions().last(),
            ),
            k != key,
            before.has_device(k),
        ensures
            self.has_device(k),
            self.sessions()[self.index_of(k)] == before.sessions()[before.index_of(k)],
    {
        let b = before.index_of(k);
        assert(before.sessions()[b].udid@ == k);
        let nb = if i >= 0 && b > i { b - 1 } else { b };
        if i >= 0 {
            assert(b != i);
        }
        assert(self.sessions()[nb] == before.sessions()[b]);
        self.lemma_index_of(nb);
    }

    /// The URL map after `key` was cached with `url`, the old entry at
    /// `i` (if `i >= 0`) having been taken out.
    proof fn lemma_urls_after(&self, before: Self, i: int, key: Seq<char>, url: Seq<char>)
        requires
            before.wf(),
            self.wf(),
            self.sessions().len() > 0,
            self.sessions().last().udid@ == key,
            self.sessions().last().stream_url@ == url,
            i >= 0 ==> 0 <= i < before.sessions().len() && before.sessions()[i].udid@ == key
                && self.sessions() == before.sessions().remove(i).push(self.sessions().last()),
            i < 0 ==> !before.has_device(key) && self.sessions() == before.sessions().push(
                self.sessions().last(),
            ),
        ensures
            self.urls() == before.urls().insert(key, url),
    {
        let e0 = before.sessions();
        let e1 = self.sessions();
        let n = e1.len() - 1;
        self.lemma_index_of(n);
        assert forall|k: Seq<char>| #[trigger] self.has_device(k) == (before.has_device(k) || k == key) by {
            if self.has_device(k) {
                let a = self.index_of(k);
                if a != n {
                    let oa = if i >= 0 && a >= i { a + 1 } else { a };
                    assert(e0[oa].udid@ == k);
                }
            }
            if before.has_device(k) && k != key {
                let b = before.index_of(k);
                let nb = if i >= 0 && b > i { b - 1 } else { b };
                assert(e1[nb].udid@ == k);
            }
        }
        assert forall|k: Seq<char>| self.has_device(k) && k != key implies #[trigger] e1[self.index_of(k)]
            == e0[before.index_of(k)] by {
            let b = before.index_of(k);
            let nb = if i >= 0 && b > i { b - 1 } else { b };
            assert(e1[nb].udid@ == k);
            self.lemma_index_of(nb);
        }
        assert(self.urls() =~= before.urls().insert(key, url));
    }

    /// The route of `command` to the session of `udid`: its position and the
    /// newline-terminated line to write.
    pub fn route_command(&self, udid: &str, command: &str) -> (r: Result<CommandRoute, ControlError>)
        ensures
            match r {
                Ok(route) => route.index < self.sessions().len() && self.sessions()[route.index as int].udid@
                    == udid@ && route.line@ == command@ + "\n"@,
                Err(e) => !self.has_device(udid@) && (e matches ControlError::NoActiveSession { udid: u }
                    && u@ == udid@),
            },
    {
        match self.find(udid) {
            Some(i) => Ok(CommandRoute { index: i, line: terminated_line(command) }),
            None => Err(ControlError::NoActiveSession { udid: String::from_str(udid) }),
        }
    }

    /// The route of a touch request: the request is validated first (at least
    /// one point; `began`, `moved` or `ended`), then its device must have a
    /// cached session. No session is ever created here.
    pub fn route_touch(&self, udid: &str, touch_type: &str, points: &Vec<NormPoint>) -> (r: Result<
        CommandRoute,
        ControlError,
    >)
        ensures
            points@.len() == 0 ==> r matches Err(ControlError::EmptyTouches),
            points@.len() > 0 && touch_kind_of(touch_type@) is None ==> (r matches Err(
                ControlError::UnknownTouchType { given },
            ) && given@ == touch_type@),
            points@.len() > 0 && touch_kind_of(touch_type@) is Some && !self.has_device(udid@) ==> (r matches Err(
                ControlError::NoActiveSession { udid: u },
            ) && u@ == udid@),
            points@.len() > 0 && touch_kind_of(touch_type@) is Some && self.has_device(udid@) ==> (r matches Ok(
                route,
            ) && route.index < self.sessions().len() && self.sessions()[route.index as int].udid@ == udid@
                && route.line@ == touch_line(touch_kind_of(touch_type@)->0, points@) + "\n"@),
    {
        match touch_command(touch_type, points) {
            Ok(command) => self.route_command(udid, command.as_str()),
            Err(e) => Err(e),
        }
    }
}

/// Under the registry's invariant each device reaches at most one session:
/// two cached sessions with the same identifier are the same entry.
pub proof fn lemma_one_session_per_device<H>(reg: &SessionRegistry<H>, i: int, j: int)
    requires
        reg.wf(),
        0 <= i < reg.sessions().len(),
        0 <= j < reg.sessions().len(),
        reg.sessions()[i].udid@ == reg.sessions()[j].udid@,
    ensures
        i == j,
{
}

/// Once a session is cached for a device, every stream request for it
/// reuses that session's URL, until the entry is replaced: the insert puts
/// the URL in the map that `plan_stream` answers from, and planning takes the
/// registry by shared reference, so repeated requests see the same map.
pub proof fn lemma_cached_url_reused<H>(before: &SessionRegistry<H>, after: &SessionRegistry<H>, s: &Session<H>)
    requires
        before.wf(),
        after.wf(),
        after.urls() == before.urls().insert(s.udid@, s.stream_url@),
    ensures
        after.urls().contains_key(s.udid@),
        after.urls()[s.udid@] == s.stream_url@,
{
}

} // verus!
