//! What a license asks of those who use what it allows.

use vstd::prelude::*;
use crate::bullets::{
    count_true, join_lines, lemma_last_fact_comes_last, lemma_nothing_holds_nothing_selected,
    lemma_one_line_for_each_fact, line, newlines, on_one_line, render_group, selected, views,
};

verus! {

/// The conditions of a license.
#[derive(Copy, Clone, Debug, Hash, Ord, PartialOrd, Eq, PartialEq, Structural)]
pub struct Conditions {
    pub disclose_sources: bool,
    pub document_changes: bool,
    pub license_and_copyright_notice: bool,
    pub network_use_is_distribution: bool,
    pub same_license: bool,
}

impl Conditions {
    /// The group in which no fact holds.
    pub open spec fn none() -> Conditions {
        Conditions {
            disclose_sources: false,
            document_changes: false,
            license_and_copyright_notice: false,
            network_use_is_distribution: false,
            same_license: false,
        }
    }

    /// The facts in the order in which they are declared.
    pub open spec fn facts(self) -> Seq<bool> {
        seq![
            self.disclose_sources,
            self.document_changes,
            self.license_and_copyright_notice,
            self.network_use_is_distribution,
            self.same_license,
        ]
    }

    /// The line of each fact, in the same order.
    pub open spec fn labels() -> Seq<Seq<char>> {
        seq![
            "- Source code must be made available when the software is distributed."@,
            "- Changes made to the code must be documented."@,
            "- The license and copyright notice must be included with the software."@,
            "- Users who interact with the software via network are given the right to receive a copy of the source code."@,
            "- Modifications must be released under the same license."@,
        ]
    }

    /// The text of the group: the lines of the facts that hold, each ended by a
    /// newline.
    pub open spec fn rendered(self) -> Seq<char> {
        join_lines(selected(self.facts(), Self::labels()))
    }

    /// Source code must be made available when the software is distributed.
    #[verifier::allow_in_spec]
    pub fn disclose_sources(self) -> (fact: bool)
        ensures
            fact == self.disclose_sources,
        returns
            self.disclose_sources,
    {
        self.disclose_sources
    }

    /// Changes made to the code must be documented.
    #[verifier::allow_in_spec]
    pub fn document_changes(self) -> (fact: bool)
        ensures
            fact == self.document_changes,
        returns
            self.document_changes,
    {
        self.document_changes
    }

    /// The license and copyright notice must be included with the software.
    #[verifier::allow_in_spec]
    pub fn license_and_copyright_notice(self) -> (fact: bool)
        ensures
            fact == self.license_and_copyright_notice,
        returns
            self.license_and_copyright_notice,
    {
        self.license_and_copyright_notice
    }

    /// Users who interact with the software via network are
    /// given the right to receive a copy of the source code.
    #[verifier::allow_in_spec]
    pub fn network_use_is_distribution(self) -> (fact: bool)
        ensures
            fact == self.network_use_is_distribution,
        returns
            self.network_use_is_distribution,
    {
        self.network_use_is_distribution
    }

    /// Modifications must be released under the same license.
    #[verifier::allow_in_spec]
    pub fn same_license(self) -> (fact: bool)
        ensures
            fact == self.same_license,
        returns
            self.same_license,
    {
        self.same_license
    }

    /// The conditions as bullet text, one line for each that is imposed.
    pub fn to_string(&self) -> (text: String)
        ensures
            text@ == self.rendered(),
    {
        let facts = vec![
            self.disclose_sources,
            self.document_changes,
            self.license_and_copyright_notice,
            self.network_use_is_distribution,
            self.same_license,
        ];
        let labels = vec![
            "- Source code must be made available when the software is distributed.",
            "- Changes made to the code must be documented.",
            "- The license and copyright notice must be included with the software.",
            "- Users who interact with the software via network are given the right to receive a copy of the source code.",
            "- Modifications must be released under the same license.",
        ];
        proof {
            assert(facts@ =~= self.facts());
            assert(views(labels@) =~= Self::labels());
        }
        render_group(&facts, &labels)
    }

    /// The text holds, in this order and with nothing between them, what each
    /// of the five facts adds.
    pub proof fn lemma_rendered_fact_by_fact(self)
        ensures
            self.rendered() == line(self.disclose_sources, Self::labels()[0])
                + line(self.document_changes, Self::labels()[1])
                + line(self.license_and_copyright_notice, Self::labels()[2])
                + line(self.network_use_is_distribution, Self::labels()[3])
                + line(self.same_license, Self::labels()[4]),
    {
        let f5 = self.facts();
        let l5 = Self::labels();
        let f4 = f5.drop_last();
        let l4 = l5.drop_last();
        let f3 = f4.drop_last();
        let l3 = l4.drop_last();
        let f2 = f3.drop_last();
        let l2 = l3.drop_last();
        let f1 = f2.drop_last();
        let l1 = l2.drop_last();
        lemma_last_fact_comes_last(f5, l5);
        lemma_last_fact_comes_last(f4, l4);
        lemma_last_fact_comes_last(f3, l3);
        lemma_last_fact_comes_last(f2, l2);
        lemma_last_fact_comes_last(f1, l1);
        assert(selected(f1.drop_last(), l1.drop_last()) =~= Seq::<Seq<char>>::empty());
        assert(Seq::<char>::empty() + line(f1.last(), l1.last()) =~= line(f1.last(), l1.last()));
    }

    /// None of the lines holds a newline.
    pub proof fn lemma_labels_on_one_line()
        ensures
            forall|i: int| 0 <= i < Self::labels().len() ==> on_one_line(#[trigger] Self::labels()[i]),
    {
        reveal_strlit("- Source code must be made available when the software is distributed.");
        reveal_strlit("- Changes made to the code must be documented.");
        reveal_strlit("- The license and copyright notice must be included with the software.");
        reveal_strlit("- Users who interact with the software via network are given the right to receive a copy of the source code.");
        reveal_strlit("- Modifications must be released under the same license.");
        assert(on_one_line(Self::labels()[0]));
        assert(on_one_line(Self::labels()[1]));
        assert(on_one_line(Self::labels()[2]));
        assert(on_one_line(Self::labels()[3]));
        assert(on_one_line(Self::labels()[4]));
    }

    /// The text has as many lines as facts hold.
    pub proof fn lemma_one_line_for_each_fact(self)
        ensures
            newlines(self.rendered()) == count_true(self.facts()),
    {
        Self::lemma_labels_on_one_line();
        lemma_one_line_for_each_fact(self.facts(), Self::labels());
    }

    /// A group in which nothing is imposed has no text.
    pub proof fn lemma_none_renders_empty()
        ensures
            Self::none().rendered() == Seq::<char>::empty(),
    {
        lemma_nothing_holds_nothing_selected(Self::none().facts(), Self::labels());
    }
}

impl Default for Conditions {
    /// The group in which no fact holds.
    fn default() -> (group: Conditions)
        ensures
            group == Conditions::none(),
    {
        Conditions {
            disclose_sources: false,
            document_changes: false,
            license_and_copyright_notice: false,
            network_use_is_distribution: false,
            same_license: false,
        }
    }
}

} // verus!
