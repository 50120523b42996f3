//! An ordered collection of lessons with unique ids.

use vstd::prelude::*;

use crate::lesson::DuplicateIdError;
use crate::lesson::Lesson;

verus! {

/// Holds the registered lessons in registration order. Registration is the
/// only mutation; once registered, a lesson is never changed, reordered or
/// removed, and no two registered lessons share an id.
pub struct LessonRegistry {
    lessons: Vec<Lesson>,
}

impl View for LessonRegistry {
    type V = Seq<Lesson>;

    closed spec fn view(&self) -> Seq<Lesson> {
        self.lessons@
    }
}

impl LessonRegistry {
    /// Whether some registered lesson carries the given id.
    pub open spec fn contains_id(self, id: Seq<char>) -> bool {
        exists|i: int| 0 <= i < self@.len() && (#[trigger] self@[i]).id@ == id
    }

    /// The registry's invariant: registered ids are pairwise distinct.
    pub open spec fn wf(self) -> bool {
        forall|i: int, j: int|
            0 <= i < j < self@.len() ==> (#[trigger] self@[i]).id@ != (#[trigger] self@[j]).id@
    }

    /// An empty registry.
    pub fn new() -> (registry: Self)
        ensures
            registry@ == Seq::<Lesson>::empty(),
            registry.wf(),
    {
        LessonRegistry { lessons: Vec::new() }
    }

    /// Appends the lesson, unless its id is already registered, in which
    /// case nothing is retained of it and the registry is left exactly as
    /// it was.
    pub fn register(&mut self, lesson: Lesson) -> (result: Result<(), DuplicateIdError>)
        requires
            old(self).wf(),
        ensures
            final(self).wf(),
            old(self).contains_id(lesson.id@) ==> final(self)@ == old(self)@
                && (result matches Err(e) && e.id@ == lesson.id@),
            !old(self).contains_id(lesson.id@) ==> final(self)@ == old(self)@.push(lesson)
                && result is Ok,
    {
        let n = self.lessons.len();
        let mut i: usize = 0;
        while i < n
            invariant
                i <= n,
                n == self.lessons@.len(),
                self@ == old(self)@,
                self.wf(),
                forall|j: int| 0 <= j < i ==> (#[trigger] self.lessons@[j]).id@ != lesson.id@,
            decreases n - i,
        {
            if self.lessons[i].id == lesson.id {
                return Err(DuplicateIdError { id: lesson.id });
            }
            i += 1;
        }
        self.lessons.push(lesson);
        Ok(())
    }

    /// How many lessons are registered.
    pub fn len(&self) -> (n: usize)
        ensures
            n == self@.len(),
    {
        self.lessons.len()
    }

    /// The lesson at the given position, in registration order.
    pub fn get(&self, i: usize) -> (lesson: &Lesson)
        requires
            i < self@.len(),
        ensures
            *lesson == self@[i as int],
    {
        &self.lessons[i]
    }
}

} // verus!
