//! The decision engine's Section 5.2 wire contract, held as plain data:
//! the policies, rules, constraints, configuration and requests every
//! adapter in this crate produces. Nothing here evaluates a request.

use vstd::prelude::*;
use vstd::string::*;

verus! {

/// The ten constraint operators the engine evaluates.
#[derive(Debug, Clone, Copy, PartialEq, Eq, Structural)]
pub enum Operator {
    Eq,
    Neq,
    Lt,
    Lteq,
    Gt,
    Gteq,
    IsAnyOf,
    IsAllOf,
    IsNoneOf,
    IsPartOf,
}

/// The name the wire contract gives each operator.
pub open spec fn operator_wire_name(op: Operator) -> Seq<char> {
    match op {
        Operator::Eq => "eq"@,
        Operator::Neq => "neq"@,
        Operator::Lt => "lt"@,
        Operator::Lteq => "lteq"@,
        Operator::Gt => "gt"@,
        Operator::Gteq => "gteq"@,
        Operator::IsAnyOf => "isAnyOf"@,
        Operator::IsAllOf => "isAllOf"@,
        Operator::IsNoneOf => "isNoneOf"@,
        Operator::IsPartOf => "isPartOf"@,
    }
}

/// What tells the ten wire names apart: their lengths, and the characters
/// at which names of one length differ.
pub proof fn lemma_operator_wire_name_chars()
    ensures
        "eq"@.len() == 2 && "eq"@[0] == 'e',
        "lt"@.len() == 2 && "lt"@[0] == 'l',
        "gt"@.len() == 2 && "gt"@[0] == 'g',
        "neq"@.len() == 3,
        "lteq"@.len() == 4 && "lteq"@[0] == 'l',
        "gteq"@.len() == 4 && "gteq"@[0] == 'g',
        "isAnyOf"@.len() == 7 && "isAnyOf"@[3] == 'n',
        "isAllOf"@.len() == 7 && "isAllOf"@[3] == 'l',
        "isNoneOf"@.len() == 8 && "isNoneOf"@[2] == 'N',
        "isPartOf"@.len() == 8 && "isPartOf"@[2] == 'P',
{
    reveal_strlit("eq");
    reveal_strlit("neq");
    reveal_strlit("lt");
    reveal_strlit("lteq");
    reveal_strlit("gt");
    reveal_strlit("gteq");
    reveal_strlit("isAnyOf");
    reveal_strlit("isAllOf");
    reveal_strlit("isNoneOf");
    reveal_strlit("isPartOf");
}

/// No two operators share a wire name.
pub proof fn operator_wire_names_are_distinct(a: Operator, b: Operator)
    ensures
        operator_wire_name(a) == operator_wire_name(b) ==> a == b,
{
    lemma_operator_wire_name_chars();
}

/// One constraint: atomic (`left_operand operator right_operand`) when all
/// four logical lists are empty, otherwise a logical group. When more than
/// one of `and`/`or`/`xone` is set, `xone` takes precedence over `or`, and
/// `or` over `and`.
#[derive(Debug, PartialEq, Eq)]
pub struct Constraint {
    pub left_operand: String,
    pub operator: Operator,
    pub right_operand: String,
    pub and: Vec<Constraint>,
    pub or: Vec<Constraint>,
    pub xone: Vec<Constraint>,
    pub and_sequence: Vec<Constraint>,
}

/// How a conflicting permission/prohibition pair is resolved.
#[derive(Debug, Clone, Copy, PartialEq, Eq, Structural)]
pub enum ConflictStrategy {
    Perm,
    Prohibit,
    Invalid,
}

/// Whether an outstanding duty only advises or forces a deny.
#[derive(Debug, Clone, Copy, PartialEq, Eq, Structural)]
pub enum DutyMode {
    Advise,
    Deny,
}

/// The evaluator's default for a request nothing permits.
#[derive(Debug, Clone, Copy, PartialEq, Eq, Structural)]
pub enum Behaviour {
    Open,
    Closed,
}

/// The name the wire contract gives each conflict strategy.
pub open spec fn conflict_wire_name(c: ConflictStrategy) -> Seq<char> {
    match c {
        ConflictStrategy::Perm => "perm"@,
        ConflictStrategy::Prohibit => "prohibit"@,
        ConflictStrategy::Invalid => "invalid"@,
    }
}

/// The name the wire contract gives each duty mode.
pub open spec fn duty_mode_wire_name(d: DutyMode) -> Seq<char> {
    match d {
        DutyMode::Advise => "advise"@,
        DutyMode::Deny => "deny"@,
    }
}

/// The name the wire contract gives each behaviour.
pub open spec fn behaviour_wire_name(b: Behaviour) -> Seq<char> {
    match b {
        Behaviour::Open => "open"@,
        Behaviour::Closed => "closed"@,
    }
}

/// The lengths that tell the configuration names apart.
pub proof fn lemma_config_wire_name_lengths()
    ensures
        "perm"@.len() == 4,
        "prohibit"@.len() == 8,
        "invalid"@.len() == 7,
        "advise"@.len() == 6,
        "deny"@.len() == 4,
        "open"@.len() == 4,
        "closed"@.len() == 6,
        "default"@.len() == 7,
{
    reveal_strlit("perm");
    reveal_strlit("prohibit");
    reveal_strlit("invalid");
    reveal_strlit("advise");
    reveal_strlit("deny");
    reveal_strlit("open");
    reveal_strlit("closed");
    reveal_strlit("default");
}

/// One rule: a permission, prohibition, obligation or duty.
#[derive(Debug, PartialEq, Eq)]
pub struct Rule {
    pub action: String,
    pub target: Option<String>,
    pub constraints: Vec<Constraint>,
    pub action_refinement: Option<Box<Constraint>>,
    pub duty: Vec<Rule>,
    pub remedy: Vec<Rule>,
    pub consequence: Option<Box<Rule>>,
}

/// One policy on the wire.
#[derive(Debug, PartialEq, Eq)]
pub struct WirePolicy {
    pub id: String,
    pub kind: String,
    pub assigner: String,
    pub assignee: Option<String>,
    pub permissions: Vec<Rule>,
    pub prohibitions: Vec<Rule>,
    pub obligations: Vec<Rule>,
    pub conflict: ConflictStrategy,
    pub inherit_from: Option<Vec<String>>,
}

/// A reference to another declared node, by `@id`.
#[derive(Debug, PartialEq, Eq)]
pub struct WireNodeRef {
    pub id: String,
}

/// One declared action, optionally `odrl:includedIn` a broader one.
#[derive(Debug, PartialEq, Eq)]
pub struct WireActionDecl {
    pub id: String,
    pub included_in: Option<WireNodeRef>,
}

/// The profile-shaped configuration a request is evaluated under.
#[derive(Debug, PartialEq, Eq)]
pub struct RequestConfig {
    pub type_: String,
    pub id: String,
    pub actions: Vec<WireActionDecl>,
    pub duty_mode: DutyMode,
    pub behaviour: Behaviour,
    pub party_identity_claim: Option<String>,
    pub agreement_assignee_claim: Option<String>,
}

/// A claim's value: one string, or several.
#[derive(Debug, PartialEq, Eq)]
pub enum ClaimValue {
    Single(String),
    Multi(Vec<String>),
}

/// The flat claims map, as `(key, value)` entries with distinct keys.
#[derive(Debug, PartialEq, Eq)]
pub struct Claims {
    pub entries: Vec<(String, ClaimValue)>,
}

/// One complete Section 5.2 request.
#[derive(Debug, PartialEq, Eq)]
pub struct Request {
    pub dataset_id: String,
    pub action: String,
    pub config: RequestConfig,
    pub policies: Vec<WirePolicy>,
    pub claims: Claims,
    pub asset_collections: Vec<String>,
}

/// The engine's coarse decision.
#[derive(Debug, Clone, Copy, PartialEq, Eq, Structural)]
pub enum WireDecision {
    Allow,
    Deny,
    Error,
}

/// The mathematical value of a [`Constraint`].
#[verifier::ext_equal]
pub struct ConstraintV {
    pub left: Seq<char>,
    pub op: Operator,
    pub right: Seq<char>,
    pub and: Seq<ConstraintV>,
    pub or: Seq<ConstraintV>,
    pub xone: Seq<ConstraintV>,
    pub and_sequence: Seq<ConstraintV>,
}

/// An atomic constraint value.
pub open spec fn atom_v(left: Seq<char>, op: Operator, right: Seq<char>) -> ConstraintV {
    ConstraintV { left, op, right, and: Seq::empty(), or: Seq::empty(), xone: Seq::empty(), and_sequence: Seq::empty() }
}

/// A logical constraint value, as [`Constraint::and`] and its siblings
/// build it.
pub open spec fn logical_v(and: Seq<ConstraintV>, or: Seq<ConstraintV>, xone: Seq<ConstraintV>) -> ConstraintV {
    ConstraintV { left: Seq::empty(), op: Operator::Eq, right: Seq::empty(), and, or, xone, and_sequence: Seq::empty() }
}

/// An `andSequence` constraint value, as [`Constraint::and_sequence`]
/// builds it.
pub open spec fn sequence_v(children: Seq<ConstraintV>) -> ConstraintV {
    ConstraintV { left: Seq::empty(), op: Operator::Eq, right: Seq::empty(), and: Seq::empty(), or: Seq::empty(), xone: Seq::empty(), and_sequence: children }
}

pub open spec fn constraint_view(c: Constraint) -> ConstraintV
    decreases c,
{
    ConstraintV {
        left: c.left_operand@,
        op: c.operator,
        right: c.right_operand@,
        and: Seq::new(c.and@.len(), |i: int| if 0 <= i < c.and@.len() { constraint_view(c.and@[i]) } else { atom_v(Seq::empty(), Operator::Eq, Seq::empty()) }),
        or: Seq::new(c.or@.len(), |i: int| if 0 <= i < c.or@.len() { constraint_view(c.or@[i]) } else { atom_v(Seq::empty(), Operator::Eq, Seq::empty()) }),
        xone: Seq::new(c.xone@.len(), |i: int| if 0 <= i < c.xone@.len() { constraint_view(c.xone@[i]) } else { atom_v(Seq::empty(), Operator::Eq, Seq::empty()) }),
        and_sequence: Seq::new(c.and_sequence@.len(), |i: int| if 0 <= i < c.and_sequence@.len() { constraint_view(c.and_sequence@[i]) } else { atom_v(Seq::empty(), Operator::Eq, Seq::empty()) }),
    }
}

impl View for Constraint {
    type V = ConstraintV;

    open spec fn view(&self) -> ConstraintV {
        constraint_view(*self)
    }
}

/// The values of a list of constraints.
pub open spec fn cviews(s: Seq<Constraint>) -> Seq<ConstraintV> {
    Seq::new(s.len(), |i: int| s[i]@)
}

/// The mathematical value of a [`Rule`].
#[verifier::ext_equal]
pub struct RuleV {
    pub action: Seq<char>,
    pub target: Option<Seq<char>>,
    pub constraints: Seq<ConstraintV>,
    pub refinement: Option<ConstraintV>,
    pub duty: Seq<RuleV>,
    pub remedy: Seq<RuleV>,
    pub consequence: Option<Box<RuleV>>,
}

/// A rule value with no nested duty, remedy or consequence.
pub open spec fn plain_rule_v(action: Seq<char>, target: Option<Seq<char>>, constraints: Seq<ConstraintV>, refinement: Option<ConstraintV>) -> RuleV {
    RuleV { action, target, constraints, refinement, duty: Seq::empty(), remedy: Seq::empty(), consequence: None }
}

pub open spec fn rule_view(r: Rule) -> RuleV
    decreases r,
{
    RuleV {
        action: r.action@,
        target: match r.target {
            Some(t) => Some(t@),
            None => None,
        },
        constraints: cviews(r.constraints@),
        refinement: match r.action_refinement {
            Some(c) => Some((*c)@),
            None => None,
        },
        duty: Seq::new(r.duty@.len(), |i: int| if 0 <= i < r.duty@.len() { rule_view(r.duty@[i]) } else { plain_rule_v(Seq::empty(), None, Seq::empty(), None) }),
        remedy: Seq::new(r.remedy@.len(), |i: int| if 0 <= i < r.remedy@.len() { rule_view(r.remedy@[i]) } else { plain_rule_v(Seq::empty(), None, Seq::empty(), None) }),
        consequence: match r.consequence {
            Some(b) => Some(Box::new(rule_view(*b))),
            None => None,
        },
    }
}

impl View for Rule {
    type V = RuleV;

    open spec fn view(&self) -> RuleV {
        rule_view(*self)
    }
}

/// The values of a list of rules.
pub open spec fn rviews(s: Seq<Rule>) -> Seq<RuleV> {
    Seq::new(s.len(), |i: int| s[i]@)
}

impl Constraint {
    /// An atomic constraint.
    pub fn new(left_operand: String, operator: Operator, right_operand: String) -> (r: Constraint)
        ensures
            r.left_operand == left_operand,
            r.operator == operator,
            r.right_operand == right_operand,
            r.and@.len() == 0,
            r.or@.len() == 0,
            r.xone@.len() == 0,
            r.and_sequence@.len() == 0,
    {
        Constraint { left_operand, operator, right_operand, and: Vec::new(), or: Vec::new(), xone: Vec::new(), and_sequence: Vec::new() }
    }

    /// A logical `and` over `children`.
    pub fn and(children: Vec<Constraint>) -> (r: Constraint)
        ensures
            r.and@ == children@,
            r.or@.len() == 0,
            r.xone@.len() == 0,
            r.and_sequence@.len() == 0,
            r.left_operand@.len() == 0,
            r.right_operand@.len() == 0,
            r.operator == Operator::Eq,
            r@ == logical_v(cviews(children@), Seq::empty(), Seq::empty()),
    {
        let r = Constraint { left_operand: String::new(), operator: Operator::Eq, right_operand: String::new(), and: children, or: Vec::new(), xone: Vec::new(), and_sequence: Vec::new() };
        assert(r@.left =~= Seq::<char>::empty());
        assert(r@.right =~= Seq::<char>::empty());
        assert(r@.and =~= cviews(children@));
        assert(r@.or =~= Seq::<ConstraintV>::empty());
        assert(r@.xone =~= Seq::<ConstraintV>::empty());
        assert(r@.and_sequence =~= Seq::<ConstraintV>::empty());
        r
    }

    /// A logical `or` over `children`.
    pub fn or(children: Vec<Constraint>) -> (r: Constraint)
        ensures
            r.or@ == children@,
            r.and@.len() == 0,
            r.xone@.len() == 0,
            r.and_sequence@.len() == 0,
            r.left_operand@.len() == 0,
            r.right_operand@.len() == 0,
            r.operator == Operator::Eq,
            r@ == logical_v(Seq::empty(), cviews(children@), Seq::empty()),
    {
        let r = Constraint { left_operand: String::new(), operator: Operator::Eq, right_operand: String::new(), and: Vec::new(), or: children, xone: Vec::new(), and_sequence: Vec::new() };
        assert(r@.left =~= Seq::<char>::empty());
        assert(r@.right =~= Seq::<char>::empty());
        assert(r@.and =~= Seq::<ConstraintV>::empty());
        assert(r@.or =~= cviews(children@));
        assert(r@.xone =~= Seq::<ConstraintV>::empty());
        assert(r@.and_sequence =~= Seq::<ConstraintV>::empty());
        r
    }

    /// A logical `xone` over `children`.
    pub fn xone(children: Vec<Constraint>) -> (r: Constraint)
        ensures
            r.xone@ == children@,
            r.and@.len() == 0,
            r.or@.len() == 0,
            r.and_sequence@.len() == 0,
            r.left_operand@.len() == 0,
            r.right_operand@.len() == 0,
            r.operator == Operator::Eq,
            r@ == logical_v(Seq::empty(), Seq::empty(), cviews(children@)),
    {
        let r = Constraint { left_operand: String::new(), operator: Operator::Eq, right_operand: String::new(), and: Vec::new(), or: Vec::new(), xone: children, and_sequence: Vec::new() };
        assert(r@.left =~= Seq::<char>::empty());
        assert(r@.right =~= Seq::<char>::empty());
        assert(r@.and =~= Seq::<ConstraintV>::empty());
        assert(r@.or =~= Seq::<ConstraintV>::empty());
        assert(r@.xone =~= cviews(children@));
        assert(r@.and_sequence =~= Seq::<ConstraintV>::empty());
        r
    }

    /// A logical `andSequence` over `children`.
    pub fn and_sequence(children: Vec<Constraint>) -> (r: Constraint)
        ensures
            r.and_sequence@ == children@,
            r.and@.len() == 0,
            r.or@.len() == 0,
            r.xone@.len() == 0,
            r.left_operand@.len() == 0,
            r.right_operand@.len() == 0,
            r.operator == Operator::Eq,
    {
        Constraint { left_operand: String::new(), operator: Operator::Eq, right_operand: String::new(), and: Vec::new(), or: Vec::new(), xone: Vec::new(), and_sequence: children }
    }
}

impl Rule {
    /// An untargeted, unrefined rule with no nested duties.
    pub fn new(action: String, constraints: Vec<Constraint>) -> (r: Rule)
        ensures
            r.action == action,
            r.constraints@ == constraints@,
            r.target is None,
            r.action_refinement is None,
            r.duty@.len() == 0,
            r.remedy@.len() == 0,
            r.consequence is None,
    {
        Rule {
            action,
            target: None,
            constraints,
            action_refinement: None,
            duty: Vec::new(),
            remedy: Vec::new(),
            consequence: None,
        }
    }

    /// A rule scoped to one asset by `odrl:target`.
    pub fn targeting(action: String, target: String, constraints: Vec<Constraint>) -> (r: Rule)
        ensures
            r.action == action,
            r.constraints@ == constraints@,
            r.target == Some(target),
            r.action_refinement is None,
            r.duty@.len() == 0,
            r.remedy@.len() == 0,
            r.consequence is None,
    {
        Rule {
            action,
            target: Some(target),
            constraints,
            action_refinement: None,
            duty: Vec::new(),
            remedy: Vec::new(),
            consequence: None,
        }
    }

    /// An untargeted rule carrying an `odrl:consequence`: the duty that
    /// applies once this one is left unfulfilled.
    pub fn with_consequence(action: String, constraints: Vec<Constraint>, consequence: Rule) -> (r: Rule)
        ensures
            r.action == action,
            r.constraints@ == constraints@,
            r.target is None,
            r.action_refinement is None,
            r.duty@.len() == 0,
            r.remedy@.len() == 0,
            r.consequence == Some(Box::new(consequence)),
    {
        Rule {
            action,
            target: None,
            constraints,
            action_refinement: None,
            duty: Vec::new(),
            remedy: Vec::new(),
            consequence: Some(Box::new(consequence)),
        }
    }

    /// A rule whose action carries an `odrl:refinement`.
    pub fn refined(action: String, constraints: Vec<Constraint>, refinement: Constraint) -> (r: Rule)
        ensures
            r.action == action,
            r.constraints@ == constraints@,
            r.target is None,
            r.action_refinement == Some(Box::new(refinement)),
            r.duty@.len() == 0,
            r.remedy@.len() == 0,
            r.consequence is None,
    {
        Rule {
            action,
            target: None,
            constraints,
            action_refinement: Some(Box::new(refinement)),
            duty: Vec::new(),
            remedy: Vec::new(),
            consequence: None,
        }
    }
}

impl Claims {
    /// No claims at all.
    pub fn new() -> (r: Claims)
        ensures
            r.entries@.len() == 0,
    {
        Claims { entries: Vec::new() }
    }
}

} // verus!
