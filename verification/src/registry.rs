//! The function directory: builtin functions addressed by module and name, and
//! the validation that every call goes through before the function's body runs.
use crate::value::{kind, kind_of, ValueKind};
use serde_json::Value;
use vstd::prelude::*;

verus! {

/// The three ways a call into the directory can fail.
#[derive(Debug, Clone, Copy, PartialEq, Eq, Structural)]
pub enum FnError {
    /// The number of arguments is not the number of declared parameters.
    BadArity,
    /// An argument does not have the shape its parameter declares.
    BadType,
    /// The function is not in the directory, or its body failed.
    ExecutionError,
}

impl FnError {
    /// What the error says, for a log line.
    pub open spec fn message(self) -> Seq<char> {
        match self {
            FnError::BadArity => "bad arity"@,
            FnError::BadType => "invalid type"@,
            FnError::ExecutionError => "function failed to execute"@,
        }
    }

    /// The error's message as a string.
    pub fn to_string(&self) -> (s: String)
        ensures
            s@ == self.message(),
    {
        match self {
            FnError::BadArity => "bad arity".to_owned(),
            FnError::BadType => "invalid type".to_owned(),
            FnError::ExecutionError => "function failed to execute".to_owned(),
        }
    }
}

/// A parameter list as it is declared, each parameter with its name as a
/// sequence of characters.
pub open spec fn declared(params: Seq<(String, ValueKind)>) -> Seq<(Seq<char>, ValueKind)> {
    Seq::new(params.len(), |i: int| (params[i].0@, params[i].1))
}

/// The shapes that a list of declared parameters asks for, in order.
pub open spec fn kinds(params: Seq<(Seq<char>, ValueKind)>) -> Seq<ValueKind> {
    Seq::new(params.len(), |i: int| params[i].1)
}

/// Every argument has the shape that the parameter in its position declares.
pub open spec fn types_match(expected: Seq<ValueKind>, args: Seq<Value>) -> bool {
    forall|i: int|
        0 <= i < expected.len() && i < args.len() ==> kind_of(#[trigger] args[i]) == expected[i]
}

/// The verdict of validation on an argument list: `None` where the body may run,
/// else the error. The count is judged first, the shapes only where the count
/// is right.
pub open spec fn admission(expected: Seq<ValueKind>, args: Seq<Value>) -> Option<FnError> {
    if args.len() != expected.len() {
        Some(FnError::BadArity)
    } else if !types_match(expected, args) {
        Some(FnError::BadType)
    } else {
        None
    }
}

/// What a call returns once its body has returned `out`: the value, or one
/// opaque `ExecutionError` whatever the body reported.
pub open spec fn settled(out: Result<Value, FnError>) -> Result<Value, FnError> {
    match out {
        Ok(v) => Ok(v),
        Err(_) => Err(FnError::ExecutionError),
    }
}

/// Validates `args` against the declared parameters without running anything.
pub fn check_args(params: &Vec<(String, ValueKind)>, args: &[Value]) -> (verdict: Option<FnError>)
    ensures
        verdict == admission(kinds(declared(params@)), args@),
{
    let ghost expected = kinds(declared(params@));
    if args.len() != params.len() {
        return Some(FnError::BadArity);
    }
    let mut i: usize = 0;
    while i < args.len()
        invariant
            i <= args.len(),
            args.len() == params.len(),
            expected == kinds(declared(params@)),
            forall|j: int| 0 <= j < i ==> kind_of(#[trigger] args@[j]) == expected[j],
        decreases args.len() - i,
    {
        if kind(&args[i]) != params[i].1 {
            assert(kind_of(args@[i as int]) != expected[i as int]);
            return Some(FnError::BadType);
        }
        i += 1;
    }
    None
}

/// Turns what a body returned into what the call returns.
pub fn settle(out: Result<Value, FnError>) -> (r: Result<Value, FnError>)
    ensures
        r == settled(out),
{
    match out {
        Ok(v) => Ok(v),
        Err(_) => Err(FnError::ExecutionError),
    }
}

/// A builtin function: its identity, its declared parameters, and the body that
/// runs on arguments that passed validation.
#[derive(Debug)]
pub struct TremorFnWrapper<F: Copy + Fn(&[Value]) -> Result<Value, FnError>> {
    module: String,
    name: String,
    params: Vec<(String, ValueKind)>,
    body: F,
}

/// What a [`TremorFnWrapper`] declares: everything about it but its body.
pub struct FnView {
    pub module: Seq<char>,
    pub name: Seq<char>,
    /// Each parameter's name and the shape it expects.
    pub params: Seq<(Seq<char>, ValueKind)>,
}

impl FnView {
    /// The pair that addresses the function in a directory.
    pub open spec fn identity(self) -> (Seq<char>, Seq<char>) {
        (self.module, self.name)
    }

    /// The number of declared parameters.
    pub open spec fn arity(self) -> nat {
        self.params.len()
    }
}

impl<F: Copy + Fn(&[Value]) -> Result<Value, FnError>> View for TremorFnWrapper<F> {
    type V = FnView;

    closed spec fn view(&self) -> FnView {
        FnView { module: self.module@, name: self.name@, params: declared(self.params@) }
    }
}

impl<F: Copy + Fn(&[Value]) -> Result<Value, FnError>> Clone for TremorFnWrapper<F> {
    /// An owned copy: same identity, same parameters, same body.
    fn clone(&self) -> (r: Self)
        ensures
            r.same_function(*self),
    {
        proof {
            use_type_invariant(self);
        }
        let mut params: Vec<(String, ValueKind)> = Vec::new();
        let mut i: usize = 0;
        while i < self.params.len()
            invariant
                i <= self.params.len(),
                params@ == self.params@.subrange(0, i as int),
            decreases self.params.len() - i,
        {
            let p = &self.params[i];
            params.push((p.0.clone(), p.1));
            assert(params@ =~= self.params@.subrange(0, i + 1));
            i += 1;
        }
        assert(params@ =~= self.params@);
        TremorFnWrapper {
            module: self.module.clone(),
            name: self.name.clone(),
            params,
            body: self.body,
        }
    }
}

impl<F: Copy + Fn(&[Value]) -> Result<Value, FnError>> TremorFnWrapper<F> {
    /// The body accepts every argument list that validation lets through.
    #[verifier::type_invariant]
    spec fn body_takes_what_validation_admits(self) -> bool {
        forall|args: &[Value]|
            admission(kinds(self@.params), args@) is None ==> #[trigger] call_requires(
                self.body,
                (args,),
            )
    }

    /// The body that runs once a call has passed validation.
    pub closed spec fn body(&self) -> F {
        self.body
    }

    /// Two entries that declare the same and run the same body.
    pub open spec fn same_function(&self, other: Self) -> bool {
        self@ == other@ && self.body() == other.body()
    }

    /// Declares the function `module`.`name` with the given parameters, each a
    /// name and the shape it expects. `body` only ever sees argument lists of
    /// that many values with those shapes, and must accept all of them.
    pub fn new(module: &str, name: &str, params: Vec<(String, ValueKind)>, body: F) -> (r: Self)
        requires
            forall|args: &[Value]|
                admission(kinds(declared(params@)), args@) is None ==> #[trigger] call_requires(
                    body,
                    (args,),
                ),
        ensures
            r@ == (FnView { module: module@, name: name@, params: declared(params@) }),
            r.body() == body,
    {
        TremorFnWrapper { module: module.to_owned(), name: name.to_owned(), params, body }
    }

    /// The module that the function belongs to.
    pub fn module(&self) -> (m: &str)
        ensures
            m@ == self@.module,
    {
        self.module.as_str()
    }

    /// The function's name within its module.
    pub fn name(&self) -> (n: &str)
        ensures
            n@ == self@.name,
    {
        self.name.as_str()
    }

    /// The number of arguments that the function takes.
    pub fn arity(&self) -> (n: usize)
        ensures
            n == self@.arity(),
    {
        self.params.len()
    }

    /// Calls the function. The argument count is checked first, then each
    /// argument's shape; only then does the body run, on those same arguments.
    /// A rejected call never reaches the body.
    pub fn invoke(&self, args: &[Value]) -> (r: Result<Value, FnError>)
        ensures
            match admission(kinds(self@.params), args@) {
                Some(e) => r == Err::<Value, FnError>(e),
                None => exists|out: Result<Value, FnError>|
                    call_ensures(self.body(), (args,), out) && r == settled(out),
            },
    {
        proof {
            use_type_invariant(self);
        }
        match check_args(&self.params, args) {
            Some(e) => Err(e),
            None => {
                let out = (self.body)(args);
                settle(out)
            },
        }
    }
}

impl<F: Copy + Fn(&[Value]) -> Result<Value, FnError>> PartialEq for TremorFnWrapper<F> {
    /// Two entries are equal when they name the same function, whatever their
    /// parameters and bodies are.
    fn eq(&self, other: &Self) -> (r: bool) {
        self.module == other.module && self.name == other.name
    }
}

impl<F: Copy + Fn(&[Value]) -> Result<Value, FnError>> vstd::std_specs::cmp::PartialEqSpecImpl for TremorFnWrapper<F> {
    open spec fn obeys_eq_spec() -> bool {
        true
    }

    open spec fn eq_spec(&self, other: &Self) -> bool {
        self@.identity() == other@.identity()
    }
}

/// Some registration carries this module and name.
pub open spec fn registered(
    registrations: Seq<FnView>,
    module: Seq<char>,
    name: Seq<char>,
) -> bool {
    exists|i: int|
        0 <= i < registrations.len() && (#[trigger] registrations[i]).identity() == (module, name)
}

/// Registration `i` is the one that a query for this module and name finds: it
/// carries them, and no registration before it does. Where a pair was
/// registered more than once, that is the first time; the later ones are
/// ignored.
pub open spec fn answers(
    registrations: Seq<FnView>,
    module: Seq<char>,
    name: Seq<char>,
    i: int,
) -> bool {
    &&& 0 <= i < registrations.len()
    &&& registrations[i].identity() == (module, name)
    &&& forall|j: int| 0 <= j < i ==> (#[trigger] registrations[j]).identity() != (module, name)
}

/// The builtin functions of a pipeline, addressed by module and name. It is
/// built once and only read afterwards.
pub struct Registry<F: Copy + Fn(&[Value]) -> Result<Value, FnError>> {
    functions: Vec<TremorFnWrapper<F>>,
}

impl<F: Copy + Fn(&[Value]) -> Result<Value, FnError>> View for Registry<F> {
    type V = Seq<FnView>;

    /// What each registration declares, in the order of registration.
    closed spec fn view(&self) -> Seq<FnView> {
        Seq::new(self.functions@.len(), |i: int| self.functions@[i]@)
    }
}

impl<F: Copy + Fn(&[Value]) -> Result<Value, FnError>> Registry<F> {
    /// The registered entries, in the order of registration.
    pub closed spec fn entries(&self) -> Seq<TremorFnWrapper<F>> {
        self.functions@
    }

    /// What `find` owes for a query. Success is a copy of the registration that
    /// answers the query. Failure is `ExecutionError`, and comes only where
    /// nothing was registered under that module and name, whether it is the
    /// module that is unknown or only the name.
    pub open spec fn found(
        &self,
        module: Seq<char>,
        name: Seq<char>,
        r: Result<TremorFnWrapper<F>, FnError>,
    ) -> bool {
        match r {
            Ok(copy) => exists|i: int| #[trigger]
                answers(self@, module, name, i) && copy.same_function(self.entries()[i]),
            Err(e) => e == FnError::ExecutionError && !registered(self@, module, name),
        }
    }

    /// The view lists what the entries declare, one for one.
    pub proof fn view_lists_entries(&self)
        ensures
            self@.len() == self.entries().len(),
            forall|i: int| 0 <= i < self@.len() ==> #[trigger] self@[i] == self.entries()[i]@,
    {
    }

    /// Builds the directory from the functions to register, in order. Where two
    /// of them have the same module and name, the earlier one is kept and the
    /// later one can never be found.
    pub fn new(functions: Vec<TremorFnWrapper<F>>) -> (r: Registry<F>)
        ensures
            r.entries() == functions@,
    {
        Registry { functions }
    }

    /// Looks a function up and hands out an owned copy of its entry. An unknown
    /// module and an unknown name within a known module both give
    /// `ExecutionError`. The directory is not changed.
    pub fn find(&self, module: &str, function: &str) -> (r: Result<TremorFnWrapper<F>, FnError>)
        ensures
            self.found(module@, function@, r),
    {
        let wanted_module = module.to_owned();
        let wanted_name = function.to_owned();
        let mut i: usize = 0;
        while i < self.functions.len()
            invariant
                i <= self.functions.len(),
                wanted_module@ == module@,
                wanted_name@ == function@,
                forall|j: int|
                    0 <= j < i ==> (#[trigger] self@[j]).identity() != (module@, function@),
            decreases self.functions.len() - i,
        {
            let entry = &self.functions[i];
            if entry.module == wanted_module && entry.name == wanted_name {
                let copy = entry.clone();
                assert(answers(self@, module@, function@, i as int));
                return Ok(copy);
            }
            i += 1;
        }
        Err(FnError::ExecutionError)
    }
}

/// Every function that was registered can be found: a query for the module
/// and name of a registration succeeds, and what it finds carries exactly that
/// module and name.
pub proof fn law_registered_is_found<F: Copy + Fn(&[Value]) -> Result<Value, FnError>>(
    registry: &Registry<F>,
    module: Seq<char>,
    name: Seq<char>,
    r: Result<TremorFnWrapper<F>, FnError>,
)
    requires
        registry.found(module, name, r),
        registered(registry@, module, name),
    ensures
        r is Ok,
        r->Ok_0@.module == module,
        r->Ok_0@.name == name,
{
    registry.view_lists_entries();
}

/// A module and name that were never registered cannot be found: the query
/// fails with `ExecutionError`.
pub proof fn law_unregistered_is_unknown<F: Copy + Fn(&[Value]) -> Result<Value, FnError>>(
    registry: &Registry<F>,
    module: Seq<char>,
    name: Seq<char>,
    r: Result<TremorFnWrapper<F>, FnError>,
)
    requires
        registry.found(module, name, r),
        !registered(registry@, module, name),
    ensures
        r == Err::<TremorFnWrapper<F>, FnError>(FnError::ExecutionError),
{
}

/// Looking the same module and name up twice in the same directory gives the
/// same answer both times: copies of the same entry, or the same error.
pub proof fn law_find_is_repeatable<F: Copy + Fn(&[Value]) -> Result<Value, FnError>>(
    registry: &Registry<F>,
    module: Seq<char>,
    name: Seq<char>,
    first: Result<TremorFnWrapper<F>, FnError>,
    second: Result<TremorFnWrapper<F>, FnError>,
)
    requires
        registry.found(module, name, first),
        registry.found(module, name, second),
    ensures
        first is Ok <==> second is Ok,
        first is Ok ==> first->Ok_0.same_function(second->Ok_0),
        first is Err ==> first->Err_0 == second->Err_0,
{
    if first is Ok && second is Ok {
        let i = choose|i: int| #[trigger]
            answers(registry@, module, name, i) && first->Ok_0.same_function(
                registry.entries()[i],
            );
        let j = choose|j: int| #[trigger]
            answers(registry@, module, name, j) && second->Ok_0.same_function(
                registry.entries()[j],
            );
        assert(i == j);
    }
}

/// A call with the wrong number of arguments is a `BadArity`, whatever shapes
/// the arguments have.
pub proof fn law_wrong_count_is_bad_arity(expected: Seq<ValueKind>, args: Seq<Value>)
    requires
        args.len() != expected.len(),
    ensures
        admission(expected, args) == Some(FnError::BadArity),
{
}

/// A call with the right number of arguments is a `BadType` as soon as one
/// argument has another shape than its parameter declares.
pub proof fn law_wrong_shape_is_bad_type(expected: Seq<ValueKind>, args: Seq<Value>, i: int)
    requires
        args.len() == expected.len(),
        0 <= i < args.len(),
        kind_of(args[i]) != expected[i],
    ensures
        admission(expected, args) == Some(FnError::BadType),
{
}

/// A function without parameters admits the empty argument list and nothing
/// else: any argument at all is one too many.
pub proof fn law_no_parameters(expected: Seq<ValueKind>, args: Seq<Value>)
    requires
        expected.len() == 0,
    ensures
        args.len() == 0 ==> admission(expected, args) is None,
        args.len() != 0 ==> admission(expected, args) == Some(FnError::BadArity),
{
}

} // verus!
