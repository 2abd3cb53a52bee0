//! A method call: the name of a VK method and its parameters.

use crate::json::{object_text, write_object};
use crate::value::{members_view, Member, Value};
use vstd::prelude::*;
use vstd::string::*;

verus! {

/// The parameters of a method call: key/value pairs in the order they were
/// given. The same key may stand there more than once.
#[derive(Debug, PartialEq, Eq)]
pub struct Params(pub Vec<(String, Value)>);

impl View for Params {
    type V = Seq<Member>;

    open spec fn view(&self) -> Seq<Member> {
        members_view(self.0@)
    }
}

impl Params {
    /// No parameters.
    pub fn new() -> (r: Params)
        ensures
            r@ == Seq::<Member>::empty(),
    {
        let r = Params(Vec::new());
        assert(r@ =~= Seq::<Member>::empty());
        r
    }

    /// Adds a pair behind those that are there, whether or not the key is
    /// among them.
    pub fn push(&mut self, key: &str, value: Value)
        ensures
            final(self)@ == old(self)@.push(Member { key: key@, value: value@ }),
    {
        self.0.push((String::from_str(key), value));
        assert(self@ =~= old(self)@.push(Member { key: key@, value: value@ }));
    }

    /// The number of pairs.
    pub fn len(&self) -> (r: usize)
        ensures
            r == self@.len(),
    {
        self.0.len()
    }

    /// The parameters as the text of a JSON object, each pair a member, in
    /// their order.
    pub fn to_json(&self) -> (r: String)
        ensures
            r@ == object_text(self@),
    {
        let mut out = String::new();
        write_object(&self.0, &mut out);
        assert(out@ =~= object_text(self@));
        out
    }
}

impl Clone for Params {
    fn clone(&self) -> (r: Self)
        ensures
            r@ == self@,
    {
        let mut copy: Vec<(String, Value)> = Vec::new();
        let mut i: usize = 0;
        while i < self.0.len()
            invariant
                0 <= i <= self.0@.len(),
                copy@.len() == i,
                forall|j: int|
                    0 <= j < i ==> copy@[j].0@ == self.0@[j].0@ && copy@[j].1@ == self.0@[j].1@,
            decreases self.0@.len() - i,
        {
            copy.push((self.0[i].0.clone(), self.0[i].1.clone()));
            i += 1;
        }
        let r = Params(copy);
        assert(r@ =~= self@);
        r
    }
}

/// A method call as a mathematical value.
pub struct MethodView {
    pub name: Seq<char>,
    pub params: Seq<Member>,
}

/// A call of a VK method.
#[derive(Debug, PartialEq, Eq)]
pub struct Method {
    pub name: String,
    pub params: Params,
}

impl View for Method {
    type V = MethodView;

    open spec fn view(&self) -> MethodView {
        MethodView { name: self.name@, params: self.params@ }
    }
}

impl Method {
    /// The call of the method `name` with `params`.
    pub fn new(name: &str, params: Params) -> (r: Method)
        ensures
            r@ == (MethodView { name: name@, params: params@ }),
    {
        Method { name: String::from_str(name), params }
    }
}

impl Clone for Method {
    fn clone(&self) -> (r: Self)
        ensures
            r@ == self@,
    {
        Method { name: self.name.clone(), params: self.params.clone() }
    }
}

/// The views of `methods`, in order.
pub open spec fn methods_view(methods: Seq<Method>) -> Seq<MethodView> {
    Seq::new(methods.len(), |i: int| methods[i]@)
}

} // verus!
