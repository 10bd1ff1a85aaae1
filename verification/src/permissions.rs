//! What a license allows.

use vstd::prelude::*;
use crate::bullets::{
    count_true, join_lines, lemma_last_fact_comes_last, lemma_nothing_holds_nothing_selected,
    lemma_one_line_for_each_fact, line, newlines, on_one_line, render_group, selected, views,
};

verus! {

/// The permissions of a license.
#[derive(Copy, Clone, Debug, Hash, Ord, PartialOrd, Eq, PartialEq, Structural)]
pub struct Permissions {
    pub commercial_use: bool,
    pub distribution: bool,
    pub modification: bool,
    pub patent_rights: bool,
    pub private_use: bool,
}

impl Permissions {
    /// The group in which no fact holds.
    pub open spec fn none() -> Permissions {
        Permissions {
            commercial_use: false,
            distribution: false,
            modification: false,
            patent_rights: false,
            private_use: false,
        }
    }

    /// The facts in the order in which they are declared.
    pub open spec fn facts(self) -> Seq<bool> {
        seq![
            self.commercial_use,
            self.distribution,
            self.modification,
            self.patent_rights,
            self.private_use,
        ]
    }

    /// The line of each fact, in the same order.
    pub open spec fn labels() -> Seq<Seq<char>> {
        seq![
            "- May be used for commercial purposes."@,
            "- May be distributed."@,
            "- May be modified."@,
            "- Provides an express grant of patent rights from contributors."@,
            "- May be used for private purposes."@,
        ]
    }

    /// The text of the group: the lines of the facts that hold, each ended by a
    /// newline.
    pub open spec fn rendered(self) -> Seq<char> {
        join_lines(selected(self.facts(), Self::labels()))
    }

    /// May be used for commercial purposes.
    #[verifier::allow_in_spec]
    pub fn commercial_use(self) -> (fact: bool)
        ensures
            fact == self.commercial_use,
        returns
            self.commercial_use,
    {
        self.commercial_use
    }

    /// May be distributed.
    #[verifier::allow_in_spec]
    pub fn distribution(self) -> (fact: bool)
        ensures
            fact == self.distribution,
        returns
            self.distribution,
    {
        self.distribution
    }

    /// May be modified.
    #[verifier::allow_in_spec]
    pub fn modification(self) -> (fact: bool)
        ensures
            fact == self.modification,
        returns
            self.modification,
    {
        self.modification
    }

    /// Provides an express grant of patent rights from contributors.
    #[verifier::allow_in_spec]
    pub fn patent_rights(self) -> (fact: bool)
        ensures
            fact == self.patent_rights,
        returns
            self.patent_rights,
    {
        self.patent_rights
    }

    /// May be used for private purposes.
    #[verifier::allow_in_spec]
    pub fn private_use(self) -> (fact: bool)
        ensures
            fact == self.private_use,
        returns
            self.private_use,
    {
        self.private_use
    }

    /// The permissions as bullet text, one line for each that is granted.
    pub fn to_string(&self) -> (text: String)
        ensures
            text@ == self.rendered(),
    {
        let facts = vec![
            self.commercial_use,
            self.distribution,
            self.modification,
            self.patent_rights,
            self.private_use,
        ];
        let labels = vec![
            "- May be used for commercial purposes.",
            "- May be distributed.",
            "- May be modified.",
            "- Provides an express grant of patent rights from contributors.",
            "- May be used for private purposes.",
        ];
        proof {
            assert(facts@ =~= self.facts());
            assert(views(labels@) =~= Self::labels());
        }
        render_group(&facts, &labels)
    }

    /// The text holds, in this order and with nothing between them, what each
    /// of the five facts adds.
    pub proof fn lemma_rendered_fact_by_fact(self)
        ensures
            self.rendered() == line(self.commercial_use, Self::labels()[0])
                + line(self.distribution, Self::labels()[1])
                + line(self.modification, Self::labels()[2])
                + line(self.patent_rights, Self::labels()[3])
                + line(self.private_use, Self::labels()[4]),
    {
        let f5 = self.facts();
        let l5 = Self::labels();
        let f4 = f5.drop_last();
        let l4 = l5.drop_last();
        let f3 = f4.drop_last();
        let l3 = l4.drop_last();
        let f2 = f3.drop_last();
        let l2 = l3.drop_last();
        let f1 = f2.drop_last();
        let l1 = l2.drop_last();
        lemma_last_fact_comes_last(f5, l5);
        lemma_last_fact_comes_last(f4, l4);
        lemma_last_fact_comes_last(f3, l3);
        lemma_last_fact_comes_last(f2, l2);
        lemma_last_fact_comes_last(f1, l1);
        assert(selected(f1.drop_last(), l1.drop_last()) =~= Seq::<Seq<char>>::empty());
        assert(Seq::<char>::empty() + line(f1.last(), l1.last()) =~= line(f1.last(), l1.last()));
    }

    /// None of the lines holds a newline.
    pub proof fn lemma_labels_on_one_line()
        ensures
            forall|i: int| 0 <= i < Self::labels().len() ==> on_one_line(#[trigger] Self::labels()[i]),
    {
        reveal_strlit("- May be used for commercial purposes.");
        reveal_strlit("- May be distributed.");
        reveal_strlit("- May be modified.");
        reveal_strlit("- Provides an express grant of patent rights from contributors.");
        reveal_strlit("- May be used for private purposes.");
        assert(on_one_line(Self::labels()[0]));
        assert(on_one_line(Self::labels()[1]));
        assert(on_one_line(Self::labels()[2]));
        assert(on_one_line(Self::labels()[3]));
        assert(on_one_line(Self::labels()[4]));
    }

    /// The text has as many lines as facts hold.
    pub proof fn lemma_one_line_for_each_fact(self)
        ensures
            newlines(self.rendered()) == count_true(self.facts()),
    {
        Self::lemma_labels_on_one_line();
        lemma_one_line_for_each_fact(self.facts(), Self::labels());
    }

    /// A group in which nothing is granted has no text.
    pub proof fn lemma_none_renders_empty()
        ensures
            Self::none().rendered() == Seq::<char>::empty(),
    {
        lemma_nothing_holds_nothing_selected(Self::none().facts(), Self::labels());
    }
}

impl Default for Permissions {
    /// The group in which no fact holds.
    fn default() -> (group: Permissions)
        ensures
            group == Permissions::none(),
    {
        Permissions {
            commercial_use: false,
            distribution: false,
            modification: false,
            patent_rights: false,
            private_use: false,
        }
    }
}

} // verus!
