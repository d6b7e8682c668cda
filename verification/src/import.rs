//! Imported modules: what a source text contributes when it is imported.

use vstd::prelude::*;
use crate::ast::{
    duplicate_statements, duplicate_strings, lemma_statement_view, lemma_statements_view,
    statements_view, Statement, StatementView,
};
use crate::grammar;
use crate::grammar::{Grammar, ParseError};
use crate::interpreter::{functions_view, Function, Module};
use crate::lexer::{tokens_of, LexError};
use crate::parser::{end_position, Parser};
use crate::semantics::{FunctionView, ModuleView};

verus! {

/// What the host found where it looked for a module's source file.
#[derive(Debug)]
pub enum SourceContent {
    /// The text of the file.
    Text(String),
    /// There is no such file.
    Missing,
    /// The file could not be read; the text says why.
    Unreadable(String),
}

/// The source of a module, as the host hands it to the evaluator.
#[derive(Debug)]
pub struct ModuleSource {
    pub name: String,
    pub path: String,
    pub content: SourceContent,
}

/// Why an import failed.
#[derive(Debug)]
pub enum ImportError {
    NotFound { module: String, path: String },
    Unreadable { module: String, reason: String },
    Lex { module: String, error: LexError },
    Parse { module: String, error: ParseError },
}

pub ghost enum SourceContentView {
    Text(Seq<char>),
    Missing,
    Unreadable(Seq<char>),
}

pub ghost struct ModuleSourceView {
    pub name: Seq<char>,
    pub path: Seq<char>,
    pub content: SourceContentView,
}

pub ghost enum ImportErrorView {
    NotFound { module: Seq<char>, path: Seq<char> },
    Unreadable { module: Seq<char>, reason: Seq<char> },
    Lex { module: Seq<char>, error: LexError },
    Parse { module: Seq<char>, error: ParseError },
}

impl View for SourceContent {
    type V = SourceContentView;

    open spec fn view(&self) -> SourceContentView {
        match *self {
            SourceContent::Text(t) => SourceContentView::Text(t@),
            SourceContent::Missing => SourceContentView::Missing,
            SourceContent::Unreadable(r) => SourceContentView::Unreadable(r@),
        }
    }
}

impl View for ModuleSource {
    type V = ModuleSourceView;

    open spec fn view(&self) -> ModuleSourceView {
        ModuleSourceView { name: self.name@, path: self.path@, content: self.content@ }
    }
}

impl View for ImportError {
    type V = ImportErrorView;

    open spec fn view(&self) -> ImportErrorView {
        match *self {
            ImportError::NotFound { module, path } => ImportErrorView::NotFound {
                module: module@,
                path: path@,
            },
            ImportError::Unreadable { module, reason } => ImportErrorView::Unreadable {
                module: module@,
                reason: reason@,
            },
            ImportError::Lex { module, error } => ImportErrorView::Lex { module: module@, error },
            ImportError::Parse { module, error } => ImportErrorView::Parse {
                module: module@,
                error,
            },
        }
    }
}

/// The values of a sequence of module sources.
pub open spec fn sources_view(sources: Seq<ModuleSource>) -> Seq<ModuleSourceView> {
    sources.map_values(|s: ModuleSource| s@)
}

/// The path of a module's source file: the base directory, a `/` unless the
/// base is empty or ends in one, the module's name, and `.kode`.
pub open spec fn source_path(base: Seq<char>, name: Seq<char>) -> Seq<char> {
    if base.len() == 0 || base.last() == '/' {
        base + name + ".kode"@
    } else {
        base + "/"@ + name + ".kode"@
    }
}

/// The first source from `from` on that is of the module with that name.
pub open spec fn find_source(sources: Seq<ModuleSourceView>, name: Seq<char>, from: int) -> Option<
    ModuleSourceView,
>
    decreases sources.len() - from,
{
    if from < 0 || from >= sources.len() {
        None
    } else if sources[from].name == name {
        Some(sources[from])
    } else {
        find_source(sources, name, from + 1)
    }
}

/// The function that a definition in an imported module contributes: never
/// an entry point, whatever the module says.
pub open spec fn imported_function(s: StatementView) -> Option<FunctionView> {
    match s {
        StatementView::FunctionDef { file_prefix, is_main, name, params, body } => Some(
            FunctionView { file_prefix, name, is_main: false, params, body },
        ),
        _ => None,
    }
}

/// The functions that the statements from `from` on contribute. Imports
/// inside a module are passed over.
pub open spec fn imported_functions(statements: Seq<StatementView>, from: int) -> Seq<FunctionView>
    decreases statements.len() - from,
{
    if from < 0 || from >= statements.len() {
        Seq::empty()
    } else {
        match imported_function(statements[from]) {
            Some(f) => seq![f] + imported_functions(statements, from + 1),
            None => imported_functions(statements, from + 1),
        }
    }
}

/// What a parser of a module's text works on: the tag of its functions is
/// the module's name.
pub open spec fn module_grammar(name: Seq<char>, text: Seq<char>) -> Grammar {
    Grammar {
        tokens: tokens_of(text)->Ok_0,
        prefix: name,
        end_line: end_position(text).0,
        end_column: end_position(text).1,
    }
}

/// The module that a source text is when imported under a name.
pub open spec fn module_of_text(name: Seq<char>, text: Seq<char>) -> Result<
    ModuleView,
    ImportErrorView,
> {
    match tokens_of(text) {
        Err(error) => Err(ImportErrorView::Lex { module: name, error }),
        Ok(_) => match grammar::module(module_grammar(name, text), Seq::empty(), 0) {
            Err(error) => Err(ImportErrorView::Parse { module: name, error }),
            Ok(statements) => Ok(
                ModuleView { name, functions: imported_functions(statements, 0) },
            ),
        },
    }
}

/// What importing a module gives: the module that its source text is, or
/// why there is none.
pub open spec fn import_outcome(
    sources: Seq<ModuleSourceView>,
    base: Seq<char>,
    name: Seq<char>,
) -> Result<ModuleView, ImportErrorView> {
    match find_source(sources, name, 0) {
        None => Err(ImportErrorView::NotFound { module: name, path: source_path(base, name) }),
        Some(source) => match source.content {
            SourceContentView::Missing => Err(
                ImportErrorView::NotFound { module: name, path: source.path },
            ),
            SourceContentView::Unreadable(reason) => Err(
                ImportErrorView::Unreadable { module: name, reason },
            ),
            SourceContentView::Text(text) => module_of_text(name, text),
        },
    }
}

/// The path of a module's source file.
pub fn source_file_path(base: &str, name: &str) -> (path: String)
    ensures
        path@ == source_path(base@, name@),
{
    let chars = crate::text::chars_of(base);
    let mut path = String::from_str(base);
    if chars.len() > 0 && chars[chars.len() - 1] != '/' {
        path.append("/");
    }
    path.append(name);
    path.append(".kode");
    path
}

/// The functions that the statements of a module contribute.
pub fn collect_functions(statements: &Vec<Statement>) -> (functions: Vec<Function>)
    ensures
        functions_view(functions@) == imported_functions(statements_view(statements@), 0),
{
    let ghost all = statements_view(statements@);
    proof {
        lemma_statements_view(statements@);
    }
    let mut functions: Vec<Function> = Vec::new();
    let mut i: usize = 0;
    assert(functions_view(functions@) =~= Seq::empty());
    assert forall|rest: Seq<FunctionView>| #[trigger] (functions_view(functions@) + rest) == rest by {
        assert(functions_view(functions@) + rest =~= rest);
    }
    while i < statements.len()
        invariant
            i <= statements.len(),
            all == statements_view(statements@),
            all.len() == statements@.len(),
            forall|k: int| 0 <= k < statements@.len() ==> #[trigger] all[k] == statements@[k]@,
            imported_functions(all, 0) == functions_view(functions@) + imported_functions(
                all,
                i as int,
            ),
        decreases statements.len() - i,
    {
        proof {
            lemma_statement_view(statements@[i as int]);
        }
        let ghost before = functions_view(functions@);
        match &statements[i] {
            Statement::FunctionDef { file_prefix, is_main, name, params, body } => {
                let f = Function {
                    file_prefix: file_prefix.clone(),
                    name: name.clone(),
                    is_main: false,
                    params: duplicate_strings(params),
                    body: duplicate_statements(body),
                };
                functions.push(f);
                proof {
                    assert(functions_view(functions@) =~= before.push(f@));
                    assert(before + (seq![f@] + imported_functions(all, i + 1)) =~= before.push(f@)
                        + imported_functions(all, i + 1));
                }
            },
            _ => {},
        }
        i += 1;
    }
    assert(functions_view(functions@) + Seq::<FunctionView>::empty() =~= functions_view(
        functions@,
    ));
    functions
}

/// The value of a result that holds a module.
pub open spec fn module_result(r: Result<Module, ImportError>) -> Result<ModuleView, ImportErrorView> {
    match r {
        Ok(m) => Ok(m@),
        Err(e) => Err(e@),
    }
}

/// The module that a source text is when imported under a name.
pub fn load_module(name: &String, text: &String) -> (r: Result<Module, ImportError>)
    ensures
        module_result(r) == module_of_text(name@, text@),
{
    let mut parser = match Parser::with_prefix(name.as_str(), text.as_str()) {
        Ok(parser) => parser,
        Err(error) => {
            return Err(ImportError::Lex { module: name.clone(), error });
        },
    };
    assert(parser.grammar() == module_grammar(name@, text@));
    match parser.parse_module() {
        Ok(statements) => Ok(
            Module { name: name.clone(), functions: collect_functions(&statements) },
        ),
        Err(error) => Err(ImportError::Parse { module: name.clone(), error }),
    }
}

/// What importing a module gives.
pub fn resolve_import(sources: &Vec<ModuleSource>, base: &String, name: &String) -> (r: Result<
    Module,
    ImportError,
>)
    ensures
        module_result(r) == import_outcome(sources_view(sources@), base@, name@),
{
    let ghost all = sources_view(sources@);
    let mut i: usize = 0;
    while i < sources.len()
        invariant
            i <= sources.len(),
            all == sources_view(sources@),
            find_source(all, name@, 0) == find_source(all, name@, i as int),
        decreases sources.len() - i,
    {
        if sources[i].name == *name {
            let source = &sources[i];
            return match &source.content {
                SourceContent::Missing => Err(
                    ImportError::NotFound { module: name.clone(), path: source.path.clone() },
                ),
                SourceContent::Unreadable(reason) => Err(
                    ImportError::Unreadable { module: name.clone(), reason: reason.clone() },
                ),
                SourceContent::Text(text) => load_module(name, text),
            };
        }
        i += 1;
    }
    Err(
        ImportError::NotFound {
            module: name.clone(),
            path: source_file_path(base.as_str(), name.as_str()),
        },
    )
}

} // verus!
