//! Running a whole program: gather the declarations, then call the entry
//! point.

use vstd::prelude::*;
use crate::ast::{
    duplicate_statements, duplicate_strings, lemma_statement_view, lemma_statements_view,
    statements_view, Statement, StatementView,
};
use crate::fault::{plain_error, Fault, FaultView, RuntimeErrorKind, RuntimeErrorKindView};
use crate::import::{import_outcome, ImportError, ImportErrorView, ModuleSourceView};
use crate::interpreter::{Function, Interpreter};
use crate::semantics::{call_function, find_function, FunctionView, Machine, World};
use crate::value::{values_view, Value, ValueView};

verus! {

/// Why a run stopped.
#[derive(Debug)]
pub enum RunError {
    /// An import of the declaration pass failed.
    Import(ImportError),
    /// The entry point is missing, or its evaluation stopped.
    Fault(Fault),
}

pub ghost enum RunErrorView {
    Import(ImportErrorView),
    Fault(FaultView),
}

impl View for RunError {
    type V = RunErrorView;

    open spec fn view(&self) -> RunErrorView {
        match *self {
            RunError::Import(e) => RunErrorView::Import(e@),
            RunError::Fault(f) => RunErrorView::Fault(f@),
        }
    }
}

/// The name under which the entry point written with `main` is registered.
pub open spec fn main_name() -> Seq<char> {
    "main"@
}

/// The name of the entry point of a program without `main`.
pub open spec fn app_name() -> Seq<char> {
    "app"@
}

/// The function that a definition of the top level registers: one written
/// with `main` under the name `main`, any other under its own name.
pub open spec fn registered(s: StatementView) -> Option<FunctionView> {
    match s {
        StatementView::FunctionDef { file_prefix, is_main, name, params, body } => Some(
            FunctionView {
                file_prefix,
                name: if is_main {
                    main_name()
                } else {
                    name
                },
                is_main,
                params,
                body,
            },
        ),
        _ => None,
    }
}

/// What the declaration pass leaves behind: the world, and the import that
/// failed if one did.
pub ghost struct Declared {
    pub world: World,
    pub failure: Option<ImportErrorView>,
}

/// The declaration pass over the statements from `from` on: each function
/// definition is registered and each import is resolved, in order; every
/// other statement is passed over. The first import that fails ends the
/// pass.
pub open spec fn declare(
    w: World,
    sources: Seq<ModuleSourceView>,
    base: Seq<char>,
    program: Seq<StatementView>,
    from: int,
) -> Declared
    decreases program.len() - from,
{
    if from < 0 || from >= program.len() {
        Declared { world: w, failure: None }
    } else {
        match program[from] {
            StatementView::FunctionDef { .. } => declare(
                World {
                    functions: w.functions.push(registered(program[from])->0),
                    modules: w.modules,
                    floats: w.floats,
                },
                sources,
                base,
                program,
                from + 1,
            ),
            StatementView::Import(name) => match import_outcome(sources, base, name) {
                Ok(module) => declare(
                    World {
                        functions: w.functions,
                        modules: w.modules.push(module),
                        floats: w.floats,
                    },
                    sources,
                    base,
                    program,
                    from + 1,
                ),
                Err(e) => Declared { world: w, failure: Some(e) },
            },
            _ => declare(w, sources, base, program, from + 1),
        }
    }
}

/// The name of the entry point: `main` if the program has a function of that
/// name, else `app` if it has one of that name. Imported modules play no
/// part.
pub open spec fn entry_point(w: World) -> Option<Seq<char>> {
    if find_function(w.functions, main_name(), w.functions.len() as int) is Some {
        Some(main_name())
    } else if find_function(w.functions, app_name(), w.functions.len() as int) is Some {
        Some(app_name())
    } else {
        None
    }
}

/// What a run comes to.
pub ghost struct Ran {
    pub world: World,
    pub machine: Machine,
    pub result: Result<(), RunErrorView>,
}

/// A run of a program: the declaration pass, then a call of the entry point
/// without arguments, whose value is dropped.
pub open spec fn run_program(
    w: World,
    m: Machine,
    sources: Seq<ModuleSourceView>,
    base: Seq<char>,
    program: Seq<StatementView>,
    fuel: nat,
) -> Ran {
    let declared = declare(w, sources, base, program, 0);
    match declared.failure {
        Some(e) => Ran { world: declared.world, machine: m, result: Err(RunErrorView::Import(e)) },
        None => match entry_point(declared.world) {
            None => Ran {
                world: declared.world,
                machine: m,
                result: Err(
                    RunErrorView::Fault(plain_error(RuntimeErrorKindView::NoEntryPoint)),
                ),
            },
            Some(name) => {
                let out = call_function(declared.world, m, name, Seq::empty(), fuel);
                Ran {
                    world: declared.world,
                    machine: out.machine,
                    result: match out.result {
                        Ok(_) => Ok(()),
                        Err(f) => Err(RunErrorView::Fault(f)),
                    },
                }
            },
        },
    }
}

/// The value of the result of a run.
pub open spec fn run_result(r: Result<(), RunError>) -> Result<(), RunErrorView> {
    match r {
        Ok(_) => Ok(()),
        Err(e) => Err(e@),
    }
}

/// The names of the modules that the top level of a program imports, in
/// order.
pub open spec fn imports(program: Seq<StatementView>, from: int) -> Seq<Seq<char>>
    decreases program.len() - from,
{
    if from < 0 || from >= program.len() {
        Seq::empty()
    } else {
        match program[from] {
            StatementView::Import(name) => seq![name] + imports(program, from + 1),
            _ => imports(program, from + 1),
        }
    }
}

/// The names of the modules that the top level of a program imports, in
/// order: those whose sources a run will ask for.
pub fn imports_of(program: &Vec<Statement>) -> (names: Vec<String>)
    ensures
        crate::ast::strings_view(names@) == imports(statements_view(program@), 0),
{
    let ghost all = statements_view(program@);
    proof {
        lemma_statements_view(program@);
    }
    let mut names: Vec<String> = Vec::new();
    let mut i: usize = 0;
    assert(crate::ast::strings_view(names@) =~= Seq::empty());
    assert forall|rest: Seq<Seq<char>>| #[trigger]
        (crate::ast::strings_view(names@) + rest) == rest by {
        assert(crate::ast::strings_view(names@) + rest =~= rest);
    }
    while i < program.len()
        invariant
            i <= program.len(),
            all == statements_view(program@),
            all.len() == program@.len(),
            forall|k: int| 0 <= k < program@.len() ==> #[trigger] all[k] == program@[k]@,
            imports(all, 0) == crate::ast::strings_view(names@) + imports(all, i as int),
        decreases program.len() - i,
    {
        proof {
            lemma_statement_view(program@[i as int]);
        }
        let ghost before = crate::ast::strings_view(names@);
        match &program[i] {
            Statement::Import(name) => {
                names.push(name.clone());
                proof {
                    assert(crate::ast::strings_view(names@) =~= before.push(name@));
                    assert(before + (seq![name@] + imports(all, i + 1)) =~= before.push(name@)
                        + imports(all, i + 1));
                }
            },
            _ => {},
        }
        i += 1;
    }
    assert(crate::ast::strings_view(names@) + Seq::<Seq<char>>::empty()
        =~= crate::ast::strings_view(names@));
    names
}

impl Interpreter {
    /// Resolves an import and adds the module to those imported.
    pub fn import_module(&mut self, module_name: &String) -> (r: Result<(), ImportError>)
        ensures
            final(self).machine() == old(self).machine(),
            final(self).fuel() == old(self).fuel(),
            final(self).base() == old(self).base(),
            final(self).sources() == old(self).sources(),
            match import_outcome(old(self).sources(), old(self).base(), module_name@) {
                Ok(module) => r is Ok && final(self).world() == (World {
                    functions: old(self).world().functions,
                    modules: old(self).world().modules.push(module),
                    floats: old(self).world().floats,
                }),
                Err(e) => r matches Err(x) && x@ == e && final(self).world() == old(self).world(),
            },
    {
        match self.find_module(module_name) {
            Ok(module) => {
                self.register_module(module);
                Ok(())
            },
            Err(e) => Err(e),
        }
    }

    /// The declaration pass.
    fn gather(&mut self, program: &Vec<Statement>) -> (r: Result<(), ImportError>)
        ensures
            final(self).machine() == old(self).machine(),
            final(self).fuel() == old(self).fuel(),
            final(self).base() == old(self).base(),
            final(self).sources() == old(self).sources(),
            ({
                let declared = declare(
                    old(self).world(),
                    old(self).sources(),
                    old(self).base(),
                    statements_view(program@),
                    0,
                );
                &&& final(self).world() == declared.world
                &&& match r {
                    Ok(_) => declared.failure is None,
                    Err(e) => declared.failure == Some(e@),
                }
            }),
    {
        let ghost all = statements_view(program@);
        let ghost sources = self.sources();
        let ghost base = self.base();
        let ghost total = declare(self.world(), sources, base, all, 0);
        proof {
            lemma_statements_view(program@);
        }
        let mut i: usize = 0;
        while i < program.len()
            invariant
                i <= program.len(),
                all == statements_view(program@),
                all.len() == program@.len(),
                forall|k: int| 0 <= k < program@.len() ==> #[trigger] all[k] == program@[k]@,
                self.machine() == old(self).machine(),
                self.fuel() == old(self).fuel(),
                self.base() == old(self).base(),
                self.sources() == old(self).sources(),
                sources == old(self).sources(),
                base == old(self).base(),
                total == declare(old(self).world(), sources, base, all, 0),
                total == declare(self.world(), sources, base, all, i as int),
            decreases program.len() - i,
        {
            proof {
                lemma_statement_view(program@[i as int]);
            }
            match &program[i] {
                Statement::FunctionDef { file_prefix, is_main, name, params, body } => {
                    let registered_name = if *is_main {
                        String::from_str("main")
                    } else {
                        name.clone()
                    };
                    self.register_function(
                        Function {
                            file_prefix: file_prefix.clone(),
                            name: registered_name,
                            is_main: *is_main,
                            params: duplicate_strings(params),
                            body: duplicate_statements(body),
                        },
                    );
                },
                Statement::Import(module_name) => {
                    match self.import_module(module_name) {
                        Ok(_) => {},
                        Err(e) => {
                            return Err(e);
                        },
                    }
                },
                _ => {},
            }
            i += 1;
        }
        Ok(())
    }

    /// Whether the program itself has a function of that name.
    fn has_function(&self, name: &str) -> (r: bool)
        ensures
            r == (find_function(
                self.world().functions,
                name@,
                self.world().functions.len() as int,
            ) is Some),
    {
        let name = String::from_str(name);
        match self.resolve_local(&name) {
            Some(_) => true,
            None => false,
        }
    }

    /// Runs a program: registers its functions and resolves its imports, then
    /// calls `main`, or `app` where there is no `main`.
    pub fn run(&mut self, program: Vec<Statement>) -> (r: Result<(), RunError>)
        ensures
            final(self).fuel() == old(self).fuel(),
            final(self).base() == old(self).base(),
            final(self).sources() == old(self).sources(),
            ({
                let ran = run_program(
                    old(self).world(),
                    old(self).machine(),
                    old(self).sources(),
                    old(self).base(),
                    statements_view(program@),
                    old(self).fuel(),
                );
                &&& final(self).world() == ran.world
                &&& final(self).machine() == ran.machine
                &&& run_result(r) == ran.result
            }),
    {
        match self.gather(&program) {
            Ok(_) => {},
            Err(e) => {
                return Err(RunError::Import(e));
            },
        }
        let has_main = self.has_function("main");
        let has_app = self.has_function("app");
        if !has_main && !has_app {
            return Err(RunError::Fault(Fault::error(RuntimeErrorKind::NoEntryPoint)));
        }
        let entry = if has_main {
            String::from_str("main")
        } else {
            String::from_str("app")
        };
        let args: Vec<Value> = Vec::new();
        assert(values_view(args@) =~= Seq::<ValueView>::empty());
        match self.call_function(&entry, args) {
            Ok(_) => Ok(()),
            Err(f) => Err(RunError::Fault(f)),
        }
    }
}

} // verus!
