//! What a license does not provide.

use vstd::prelude::*;
use crate::bullets::{
    count_true, join_lines, lemma_last_fact_comes_last, lemma_nothing_holds_nothing_selected,
    lemma_one_line_for_each_fact, line, newlines, on_one_line, render_group, selected, views,
};

verus! {

/// The limitations of a license.
#[derive(Copy, Clone, Debug, Hash, Ord, PartialOrd, Eq, PartialEq, Structural)]
pub struct Limitations {
    pub no_liability: bool,
    pub no_trademark_rights: bool,
    pub no_warranty: bool,
    pub no_patent_rights: bool,
}

impl Limitations {
    /// The group in which no fact holds.
    pub open spec fn none() -> Limitations {
        Limitations {
            no_liability: false,
            no_trademark_rights: false,
            no_warranty: false,
            no_patent_rights: false,
        }
    }

    /// The facts in the order in which they are declared.
    pub open spec fn facts(self) -> Seq<bool> {
        seq![
            self.no_liability,
            self.no_trademark_rights,
            self.no_warranty,
            self.no_patent_rights,
        ]
    }

    /// The line of each fact, in the same order.
    pub open spec fn labels() -> Seq<Seq<char>> {
        seq![
            "- Includes a limitation of liability."@,
            "- Does not grant trademark rights."@,
            "- Does not provide any warranty."@,
            "- Does not provide any rights in the patents of contributors."@,
        ]
    }

    /// The text of the group: the lines of the facts that hold, each ended by a
    /// newline.
    pub open spec fn rendered(self) -> Seq<char> {
        join_lines(selected(self.facts(), Self::labels()))
    }

    /// Includes a limitation of liability.
    #[verifier::allow_in_spec]
    pub fn no_liability(self) -> (fact: bool)
        ensures
            fact == self.no_liability,
        returns
            self.no_liability,
    {
        self.no_liability
    }

    /// Does not grant trademark rights.
    #[verifier::allow_in_spec]
    pub fn no_trademark_rights(self) -> (fact: bool)
        ensures
            fact == self.no_trademark_rights,
        returns
            self.no_trademark_rights,
    {
        self.no_trademark_rights
    }

    /// Does not provide any warranty.
    #[verifier::allow_in_spec]
    pub fn no_warranty(self) -> (fact: bool)
        ensures
            fact == self.no_warranty,
        returns
            self.no_warranty,
    {
        self.no_warranty
    }

    /// Does not provide any rights in the patents of contributors.
    #[verifier::allow_in_spec]
    pub fn no_patent_rights(self) -> (fact: bool)
        ensures
            fact == self.no_patent_rights,
        returns
            self.no_patent_rights,
    {
        self.no_patent_rights
    }

    /// The limitations as bullet text, one line for each that applies.
    pub fn to_string(&self) -> (text: String)
        ensures
            text@ == self.rendered(),
    {
        let facts = vec![
            self.no_liability,
            self.no_trademark_rights,
            self.no_warranty,
            self.no_patent_rights,
        ];
        let labels = vec![
            "- Includes a limitation of liability.",
            "- Does not grant trademark rights.",
            "- Does not provide any warranty.",
            "- Does not provide any rights in the patents of contributors.",
        ];
        proof {
            assert(facts@ =~= self.facts());
            assert(views(labels@) =~= Self::labels());
        }
        render_group(&facts, &labels)
    }

    /// The text holds, in this order and with nothing between them, what each
    /// of the four facts adds.
    pub proof fn lemma_rendered_fact_by_fact(self)
        ensures
            self.rendered() == line(self.no_liability, Self::labels()[0])
                + line(self.no_trademark_rights, Self::labels()[1])
                + line(self.no_warranty, Self::labels()[2])
                + line(self.no_patent_rights, Self::labels()[3]),
    {
        let f4 = self.facts();
        let l4 = Self::labels();
        let f3 = f4.drop_last();
        let l3 = l4.drop_last();
        let f2 = f3.drop_last();
        let l2 = l3.drop_last();
        let f1 = f2.drop_last();
        let l1 = l2.drop_last();
        lemma_last_fact_comes_last(f4, l4);
        lemma_last_fact_comes_last(f3, l3);
        lemma_last_fact_comes_last(f2, l2);
        lemma_last_fact_comes_last(f1, l1);
        assert(selected(f1.drop_last(), l1.drop_last()) =~= Seq::<Seq<char>>::empty());
        assert(Seq::<char>::empty() + line(f1.last(), l1.last()) =~= line(f1.last(), l1.last()));
    }

    /// None of the lines holds a newline.
    pub proof fn lemma_labels_on_one_line()
        ensures
            forall|i: int| 0 <= i < Self::labels().len() ==> on_one_line(#[trigger] Self::labels()[i]),
    {
        reveal_strlit("- Includes a limitation of liability.");
        reveal_strlit("- Does not grant trademark rights.");
        reveal_strlit("- Does not provide any warranty.");
        reveal_strlit("- Does not provide any rights in the patents of contributors.");
        assert(on_one_line(Self::labels()[0]));
        assert(on_one_line(Self::labels()[1]));
        assert(on_one_line(Self::labels()[2]));
        assert(on_one_line(Self::labels()[3]));
    }

    /// The text has as many lines as facts hold.
    pub proof fn lemma_one_line_for_each_fact(self)
        ensures
            newlines(self.rendered()) == count_true(self.facts()),
    {
        Self::lemma_labels_on_one_line();
        lemma_one_line_for_each_fact(self.facts(), Self::labels());
    }

    /// A group in which no limitation applies has no text.
    pub proof fn lemma_none_renders_empty()
        ensures
            Self::none().rendered() == Seq::<char>::empty(),
    {
        lemma_nothing_holds_nothing_selected(Self::none().facts(), Self::labels());
    }
}

impl Default for Limitations {
    /// The group in which no fact holds.
    fn default() -> (group: Limitations)
        ensures
            group == Limitations::none(),
    {
        Limitations {
            no_liability: false,
            no_trademark_rights: false,
            no_warranty: false,
            no_patent_rights: false,
        }
    }
}

} // verus!
