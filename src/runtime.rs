use vstd::prelude::*;
use vstd::std_specs::iter::IteratorSpec;

use crate::callback::CallbackRegistry;
use crate::error::{check_handle, Error};
use crate::handle::{NativeHandle, Ref};

verus! {

/// How many of the objects in `s` have been released (`false` marks one).
pub open spec fn count_freed(s: Seq<bool>) -> nat
    decreases s.len(),
{
    if s.len() == 0 {
        0
    } else {
        count_freed(s.drop_last()) + if s.last() {
            0nat
        } else {
            1nat
        }
    }
}

proof fn lemma_count_freed_bound(s: Seq<bool>)
    ensures
        count_freed(s) <= s.len(),
    decreases s.len(),
{
    if s.len() > 0 {
        lemma_count_freed_bound(s.drop_last());
    }
}

proof fn lemma_count_freed_push_live(s: Seq<bool>)
    ensures
        count_freed(s.push(true)) == count_freed(s),
{
    assert(s.push(true).drop_last() =~= s);
}

proof fn lemma_count_freed_release(s: Seq<bool>, i: int)
    requires
        0 <= i < s.len(),
        s[i],
    ensures
        count_freed(s.update(i, false)) == count_freed(s) + 1,
    decreases s.len(),
{
    let t = s.update(i, false);
    if i == s.len() - 1 {
        assert(t.drop_last() =~= s.drop_last());
    } else {
        lemma_count_freed_release(s.drop_last(), i);
        assert(t.drop_last() =~= s.drop_last().update(i, false));
    }
}

proof fn lemma_none_live_all_freed(s: Seq<bool>)
    requires
        forall|i: int| 0 <= i < s.len() ==> !s[i],
    ensures
        count_freed(s) == s.len(),
    decreases s.len(),
{
    if s.len() > 0 {
        lemma_none_live_all_freed(s.drop_last());
    }
}

/// An image that the library owns. It cannot be copied: the one way to a second
/// image is `NativeRuntime::copy_bitmap`, which allocates a new object, and the
/// one way to release it is `NativeRuntime::free_bitmap`, which consumes it.
#[derive(Debug, PartialEq, Eq)]
pub struct Bitmap {
    handle: NativeHandle,
}

impl Bitmap {
    pub closed spec fn spec_handle(&self) -> NativeHandle {
        self.handle
    }

    /// The native object behind the image.
    pub fn handle(&self) -> (r: NativeHandle)
        ensures
            r == self.spec_handle(),
    {
        self.handle
    }
}

/// A sound player that the library owns, released by
/// `NativeRuntime::free_sample_player`, which takes it by value.
#[derive(Debug, PartialEq, Eq)]
pub struct SamplePlayer {
    handle: NativeHandle,
}

impl SamplePlayer {
    pub closed spec fn spec_handle(&self) -> NativeHandle {
        self.handle
    }

    /// The native object behind the player.
    pub fn handle(&self) -> (r: NativeHandle)
        ensures
            r == self.spec_handle(),
    {
        self.handle
    }
}

/// What the trampoline does with the runtime's signal that the player behind
/// `handle` has finished: takes the callback that waits for it out of the
/// table, with a view of the player to run it on. A signal for which none waits
/// (it was replaced, cancelled or already run) yields nothing.
pub fn player_finished<V>(callbacks: &mut CallbackRegistry<V>, handle: NativeHandle) -> (r: Option<
    (V, Ref<'static, SamplePlayer>),
>)
    ensures
        final(callbacks)@ == old(callbacks)@.remove(handle@),
        old(callbacks)@.contains_key(handle@) ==> (r matches Some((v, view)) && v == old(
            callbacks,
        )@[handle@] && view.target().spec_handle() == handle),
        !old(callbacks)@.contains_key(handle@) ==> r is None,
{
    match callbacks.take(handle) {
        Some(callback) => Some((callback, Ref::from(SamplePlayer { handle }))),
        None => None,
    }
}

/// The handle of the frame buffer, which the runtime owns; no allocation ever
/// returns it.
pub const DISPLAY_BUFFER_HANDLE: u64 = 0xffff_ffff_ffff_ffff;

/// The runtime's side of object lifetimes: every object it has allocated, in
/// order (object `i + 1` sits at index `i`, `true` while it is live), the
/// number of objects it will hold live at once, and the files it can load from.
pub struct NativeRuntime {
    objects: Vec<bool>,
    frees: usize,
    capacity: usize,
    files: Vec<String>,
}

impl NativeRuntime {
    pub closed spec fn objects(&self) -> Seq<bool> {
        self.objects@
    }

    pub closed spec fn frees(&self) -> nat {
        self.frees as nat
    }

    pub closed spec fn capacity(&self) -> nat {
        self.capacity as nat
    }

    pub closed spec fn files(&self) -> Seq<Seq<char>> {
        self.files@.map_values(|f: String| f@)
    }

    pub closed spec fn wf(&self) -> bool {
        &&& self.frees == count_freed(self.objects@)
        &&& self.objects@.len() < DISPLAY_BUFFER_HANDLE
    }

    /// The number of allocations made so far.
    pub open spec fn allocations(&self) -> nat {
        self.objects().len()
    }

    /// The number of objects allocated and not yet released.
    pub open spec fn live(&self) -> int {
        self.allocations() - self.frees()
    }

    pub open spec fn is_live(&self, h: u64) -> bool {
        1 <= h <= self.allocations() && self.objects()[h - 1]
    }

    /// Whether the next allocation succeeds.
    pub open spec fn can_allocate(&self) -> bool {
        &&& self.live() < self.capacity()
        &&& self.allocations() + 1 < DISPLAY_BUFFER_HANDLE
    }

    pub open spec fn has_file_spec(&self, path: Seq<char>) -> bool {
        self.files().contains(path)
    }

    /// A runtime with nothing allocated, room for `capacity` live objects, and
    /// no files.
    pub fn new(capacity: usize) -> (r: Self)
        ensures
            r.wf(),
            r.objects() == Seq::<bool>::empty(),
            r.frees() == 0,
            r.capacity() == capacity,
            r.files() == Seq::<Seq<char>>::empty(),
    {
        let r = NativeRuntime { objects: Vec::new(), frees: 0, capacity, files: Vec::new() };
        assert(r.files() =~= Seq::<Seq<char>>::empty());
        r
    }

    /// Puts a file at `path`, so that loads from it find one.
    pub fn add_file(&mut self, path: &str)
        requires
            old(self).wf(),
        ensures
            final(self).wf(),
            final(self).objects() == old(self).objects(),
            final(self).frees() == old(self).frees(),
            final(self).capacity() == old(self).capacity(),
            final(self).files() == old(self).files().push(path@),
    {
        self.files.push(path.to_owned());
        assert(self.files() =~= old(self).files().push(path@));
    }

    /// Whether a file is at `path`.
    pub fn has_file(&self, path: &str) -> (r: bool)
        ensures
            r == self.has_file_spec(path@),
    {
        let p = path.to_owned();
        let mut i: usize = 0;
        while i < self.files.len()
            invariant
                0 <= i <= self.files@.len(),
                p@ == path@,
                forall|j: int| 0 <= j < i ==> self.files@[j]@ != path@,
            decreases self.files@.len() - i,
        {
            if self.files[i] == p {
                assert(self.files()[i as int] == path@);
                return true;
            }
            i = i + 1;
        }
        assert forall|j: int| 0 <= j < self.files().len() implies self.files()[j] != path@ by {}
        false
    }

    /// How many allocations have been made.
    pub fn alloc_count(&self) -> (r: usize)
        ensures
            r == self.allocations(),
    {
        self.objects.len()
    }

    /// How many objects have been released.
    pub fn free_count(&self) -> (r: usize)
        ensures
            r == self.frees(),
    {
        self.frees
    }

    /// How many objects are live.
    pub fn live_count(&self) -> (r: usize)
        requires
            self.wf(),
        ensures
            r == self.live(),
    {
        proof {
            lemma_count_freed_bound(self.objects@);
        }
        self.objects.len() - self.frees
    }

    /// Whether the object behind `handle` is allocated and not released.
    pub fn is_live_handle(&self, handle: NativeHandle) -> (r: bool)
        ensures
            r == self.is_live(handle@),
    {
        let raw = handle.raw();
        if raw == 0 || raw > self.objects.len() as u64 {
            false
        } else {
            self.objects[(raw - 1) as usize]
        }
    }

    /// The runtime's allocation entry point: the new object's handle, or the
    /// null handle `0` where there is no room.
    fn allocate(&mut self) -> (r: u64)
        requires
            old(self).wf(),
        ensures
            final(self).wf(),
            final(self).capacity() == old(self).capacity(),
            final(self).files() == old(self).files(),
            final(self).frees() == old(self).frees(),
            old(self).can_allocate() ==> {
                &&& r == old(self).allocations() + 1
                &&& final(self).objects() == old(self).objects().push(true)
            },
            !old(self).can_allocate() ==> r == 0 && final(self).objects() == old(self).objects(),
    {
        proof {
            lemma_count_freed_bound(self.objects@);
        }
        if self.objects.len() - self.frees >= self.capacity || self.objects.len() as u64 + 1
            >= DISPLAY_BUFFER_HANDLE {
            0
        } else {
            proof {
                lemma_count_freed_push_live(self.objects@);
            }
            self.objects.push(true);
            self.objects.len() as u64
        }
    }

    /// Allocates a new, blank image.
    pub fn new_bitmap(&mut self) -> (r: Result<Bitmap, Error>)
        requires
            old(self).wf(),
        ensures
            final(self).wf(),
            final(self).capacity() == old(self).capacity(),
            final(self).files() == old(self).files(),
            final(self).frees() == old(self).frees(),
            old(self).can_allocate() ==> {
                &&& r matches Ok(b) && b.spec_handle()@ == old(self).allocations() + 1
                &&& final(self).objects() == old(self).objects().push(true)
            },
            !old(self).can_allocate() ==> {
                &&& r matches Err(Error::AllocationFailed { operation: op }) && op@
                    == "newBitmap"@
                &&& final(self).objects() == old(self).objects()
            },
    {
        proof {
            reveal_strlit("newBitmap");
        }
        let raw = self.allocate();
        match check_handle(raw, "newBitmap") {
            Ok(handle) => Ok(Bitmap { handle }),
            Err(e) => Err(e),
        }
    }

    /// Loads an image from the file at `path`. A path that cannot be handed to
    /// the runtime (it holds a NUL byte) is refused, a missing file is reported
    /// as not found, and a full object table as a failed allocation.
    pub fn load_bitmap(&mut self, path: &str) -> (r: Result<Bitmap, Error>)
        requires
            old(self).wf(),
        ensures
            final(self).wf(),
            final(self).capacity() == old(self).capacity(),
            final(self).files() == old(self).files(),
            final(self).frees() == old(self).frees(),
            path@.contains('\0') ==> {
                &&& r matches Err(Error::InvalidArgument { detail: d }) && d@ == path@
                &&& final(self).objects() == old(self).objects()
            },
            !path@.contains('\0') && !old(self).has_file_spec(path@) ==> {
                &&& r matches Err(Error::NotFound { path: p }) && p@ == path@
                &&& final(self).objects() == old(self).objects()
            },
            !path@.contains('\0') && old(self).has_file_spec(path@)
                && old(self).can_allocate() ==> {
                &&& r matches Ok(b) && b.spec_handle()@ == old(self).allocations() + 1
                &&& final(self).objects() == old(self).objects().push(true)
            },
            !path@.contains('\0') && old(self).has_file_spec(path@)
                && !old(self).can_allocate() ==> {
                &&& r matches Err(Error::AllocationFailed { operation: op }) && op@
                    == "loadBitmap"@
                &&& final(self).objects() == old(self).objects()
            },
    {
        proof {
            reveal_strlit("loadBitmap");
        }
        if let Err(e) = check_c_string(path) {
            return Err(e);
        }
        if !self.has_file(path) {
            return Err(Error::NotFound { path: path.to_owned() });
        }
        let raw = self.allocate();
        match check_handle(raw, "loadBitmap") {
            Ok(handle) => Ok(Bitmap { handle }),
            Err(e) => Err(e),
        }
    }

    /// A second image with the same pixels: a new native object, never the same
    /// handle. Only an image that this runtime holds live can be copied.
    pub fn copy_bitmap(&mut self, bitmap: &Bitmap) -> (r: Result<Bitmap, Error>)
        requires
            old(self).wf(),
        ensures
            final(self).wf(),
            final(self).capacity() == old(self).capacity(),
            final(self).files() == old(self).files(),
            final(self).frees() == old(self).frees(),
            !old(self).is_live(bitmap.spec_handle()@) ==> {
                &&& r matches Err(Error::InvalidArgument { detail: d }) && d@ == "copyBitmap"@
                &&& final(self).objects() == old(self).objects()
            },
            old(self).is_live(bitmap.spec_handle()@) && old(self).can_allocate() ==> {
                &&& r matches Ok(b) && b.spec_handle()@ == old(self).allocations() + 1
                &&& final(self).objects() == old(self).objects().push(true)
            },
            old(self).is_live(bitmap.spec_handle()@) && !old(self).can_allocate() ==> {
                &&& r matches Err(Error::AllocationFailed { operation: op }) && op@
                    == "copyBitmap"@
                &&& final(self).objects() == old(self).objects()
            },
            r matches Ok(b) ==> !old(self).is_live(b.spec_handle()@),
    {
        proof {
            reveal_strlit("copyBitmap");
        }
        if !self.is_live_handle(bitmap.handle) {
            return Err(Error::InvalidArgument { detail: "copyBitmap".to_owned() });
        }
        let raw = self.allocate();
        match check_handle(raw, "copyBitmap") {
            Ok(handle) => Ok(Bitmap { handle }),
            Err(e) => Err(e),
        }
    }

    /// What releasing object `h` does: a live object is marked released and
    /// counted once; for any other handle nothing changes.
    pub open spec fn released(before: Self, after: Self, h: u64) -> bool {
        &&& after.capacity() == before.capacity()
        &&& after.files() == before.files()
        &&& if before.is_live(h) {
            &&& after.objects() == before.objects().update(h - 1, false)
            &&& after.frees() == before.frees() + 1
        } else {
            &&& after.objects() == before.objects()
            &&& after.frees() == before.frees()
        }
    }

    /// The runtime's free entry point.
    fn release(&mut self, handle: NativeHandle)
        requires
            old(self).wf(),
        ensures
            final(self).wf(),
            Self::released(*old(self), *final(self), handle@),
    {
        if self.is_live_handle(handle) {
            let raw = handle.raw();
            let n = self.objects.len();
            assert(1 <= raw <= n);
            let i = (raw - 1) as usize;
            proof {
                lemma_count_freed_release(self.objects@, i as int);
                lemma_count_freed_bound(self.objects@.update(i as int, false));
            }
            self.objects.set(i, false);
            self.frees = self.frees + 1;
        }
    }

    /// Releases an image: the runtime's free call, made once for the object.
    /// An image that this runtime does not hold live is left alone.
    pub fn free_bitmap(&mut self, bitmap: Bitmap)
        requires
            old(self).wf(),
        ensures
            final(self).wf(),
            Self::released(*old(self), *final(self), bitmap.spec_handle()@),
    {
        self.release(bitmap.handle);
    }

    /// Releases an image and, first, drops whatever completion callback waits
    /// for it, so that no callback ever sees a released object.
    pub fn destroy_bitmap<V>(&mut self, callbacks: &mut CallbackRegistry<V>, bitmap: Bitmap)
        requires
            old(self).wf(),
        ensures
            final(self).wf(),
            final(callbacks)@ == old(callbacks)@.remove(bitmap.spec_handle()@),
            Self::released(*old(self), *final(self), bitmap.spec_handle()@),
    {
        callbacks.deregister(bitmap.handle);
        self.release(bitmap.handle);
    }

    /// Allocates a sample player.
    pub fn new_sample_player(&mut self) -> (r: Result<SamplePlayer, Error>)
        requires
            old(self).wf(),
        ensures
            final(self).wf(),
            final(self).capacity() == old(self).capacity(),
            final(self).files() == old(self).files(),
            final(self).frees() == old(self).frees(),
            old(self).can_allocate() ==> {
                &&& r matches Ok(p) && p.spec_handle()@ == old(self).allocations() + 1
                &&& final(self).objects() == old(self).objects().push(true)
            },
            !old(self).can_allocate() ==> {
                &&& r matches Err(Error::AllocationFailed { operation: op }) && op@
                    == "newPlayer"@
                &&& final(self).objects() == old(self).objects()
            },
    {
        proof {
            reveal_strlit("newPlayer");
        }
        let raw = self.allocate();
        match check_handle(raw, "newPlayer") {
            Ok(handle) => Ok(SamplePlayer { handle }),
            Err(e) => Err(e),
        }
    }

    /// Asks to be told when `player` finishes: `callback` waits in `callbacks`
    /// for the runtime's signal, in place of any callback that waited before,
    /// which is handed back unrun. A player that this runtime does not hold
    /// live gets no callback: `callback` itself is handed back.
    pub fn set_finish_callback<V>(
        &self,
        callbacks: &mut CallbackRegistry<V>,
        player: &SamplePlayer,
        callback: V,
    ) -> (r: Option<V>)
        ensures
            self.is_live(player.spec_handle()@) ==> {
                &&& final(callbacks)@ == old(callbacks)@.insert(player.spec_handle()@, callback)
                &&& r == (if old(callbacks)@.contains_key(player.spec_handle()@) {
                    Some(old(callbacks)@[player.spec_handle()@])
                } else {
                    None
                })
            },
            !self.is_live(player.spec_handle()@) ==> {
                &&& final(callbacks)@ == old(callbacks)@
                &&& r == Some(callback)
            },
    {
        if self.is_live_handle(player.handle) {
            callbacks.register(player.handle, callback)
        } else {
            Some(callback)
        }
    }

    /// Releases a sample player after dropping whatever finish callback waits
    /// for it.
    pub fn free_sample_player<V>(&mut self, callbacks: &mut CallbackRegistry<V>, player: SamplePlayer)
        requires
            old(self).wf(),
        ensures
            final(self).wf(),
            final(callbacks)@ == old(callbacks)@.remove(player.spec_handle()@),
            Self::released(*old(self), *final(self), player.spec_handle()@),
    {
        callbacks.deregister(player.handle);
        self.release(player.handle);
    }

    /// A view of the frame buffer, which the runtime owns: the view cannot
    /// release it, and lives no longer than this borrow of the runtime.
    pub fn get_display_buffer_bitmap(&self) -> (r: Ref<'_, Bitmap>)
        ensures
            r.target().spec_handle()@ == DISPLAY_BUFFER_HANDLE,
    {
        Ref::from(Bitmap { handle: NativeHandle::from_raw(DISPLAY_BUFFER_HANDLE) })
    }
}

/// Every allocation is matched by at most one release, and the objects that
/// are not released are exactly the live ones: allocations equal releases plus
/// live objects. Once nothing is live, every allocation has had its release.
pub proof fn lemma_allocations_balance(rt: NativeRuntime)
    requires
        rt.wf(),
    ensures
        rt.frees() <= rt.allocations(),
        rt.allocations() == rt.frees() + rt.live(),
        (forall|h: u64| !rt.is_live(h)) ==> rt.allocations() == rt.frees(),
{
    lemma_count_freed_bound(rt.objects());
    if forall|h: u64| !rt.is_live(h) {
        assert forall|i: int| 0 <= i < rt.objects().len() implies !rt.objects()[i] by {
            assert(!rt.is_live((i + 1) as u64));
        }
        lemma_none_live_all_freed(rt.objects());
    }
}

/// The frame buffer is never among the allocated objects, so no release ever
/// counts it, whoever asks for one.
pub proof fn lemma_display_buffer_never_allocated(rt: NativeRuntime)
    requires
        rt.wf(),
    ensures
        !rt.is_live(DISPLAY_BUFFER_HANDLE),
{
}

/// Whether a string could be handed to the runtime as a C string: it may hold
/// no NUL character. One that holds one is refused as an invalid argument.
pub fn check_c_string(s: &str) -> (r: Result<(), Error>)
    ensures
        s@.contains('\0') ==> (r matches Err(Error::InvalidArgument { detail: d }) && d@
            == s@),
        !s@.contains('\0') ==> r is Ok,
{
    broadcast use vstd::string::group_string_axioms;

    let mut chars = s.chars();
    let ghost mut seen: Seq<char> = Seq::empty();
    loop
        invariant
            seen + chars.remaining() == s@,
            !seen.contains('\0'),
            chars.obeys_prophetic_iter_laws(),
        decreases s@.len() - seen.len(),
    {
        let ghost before = chars.remaining();
        match chars.next() {
            Some(c) => {
                assert(before[0] == c);
                if c == '\0' {
                    assert(s@[seen.len() as int] == c);
                    return Err(Error::InvalidArgument { detail: s.to_owned() });
                }
                proof {
                    assert(seen.push(c) + chars.remaining() =~= seen + before);
                    seen = seen.push(c);
                }
            },
            None => {
                assert(seen =~= s@);
                return Ok(());
            },
        }
    }
}

} // verus!
