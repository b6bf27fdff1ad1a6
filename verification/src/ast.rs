use vstd::prelude::*;

verus! {

/// A node of an abstract syntax tree: its name, the data it carries and its
/// children, in order.
#[derive(Debug, PartialEq, Eq)]
pub struct Ast {
    pub name: String,
    pub data: String,
    pub children: Vec<Ast>,
}

/// The mathematical value of an [`Ast`] node: the characters of its name and
/// of its data, and its children as they are.
pub struct AstView {
    pub name: Seq<char>,
    pub data: Seq<char>,
    pub children: Seq<Ast>,
}

impl View for Ast {
    type V = AstView;

    open spec fn view(&self) -> AstView {
        AstView { name: self.name@, data: self.data@, children: self.children@ }
    }
}

impl AstView {
    /// The node with its data replaced by `data`.
    pub open spec fn with_data(self, data: Seq<char>) -> AstView {
        AstView { data, ..self }
    }

    /// The node with `child` added as its last child.
    pub open spec fn add_child(self, child: Ast) -> AstView {
        AstView { children: self.children.push(child), ..self }
    }

    /// The node with no children.
    pub open spec fn without_children(self) -> AstView {
        AstView { children: Seq::empty(), ..self }
    }
}

/// Makes a node named `name`, with no data and no children.
pub fn ast_new(name: &str) -> (ast: Ast)
    ensures
        ast@ == (AstView { name: name@, data: Seq::empty(), children: Seq::empty() }),
{
    Ast { name: name.to_owned(), data: String::new(), children: Vec::new() }
}

/// The name of `ast`.
pub fn ast_get_name(ast: &Ast) -> (name: &str)
    ensures
        name@ == ast@.name,
{
    ast.name.as_str()
}

/// Replaces the data of `ast` with `data`.
pub fn ast_set_data(ast: &mut Ast, data: &str)
    ensures
        final(ast)@ == old(ast)@.with_data(data@),
{
    ast.data = data.to_owned();
}

/// The data of `ast`.
pub fn ast_get_data(ast: &Ast) -> (data: &str)
    ensures
        data@ == ast@.data,
{
    ast.data.as_str()
}

/// Empties the data of `ast`.
pub fn ast_clear_data(ast: &mut Ast)
    ensures
        final(ast)@ == old(ast)@.with_data(Seq::empty()),
{
    ast.data = String::new();
}

/// Adds `child` as the last child of `ast`.
pub fn ast_add_child(ast: &mut Ast, child: Ast)
    ensures
        final(ast)@ == old(ast)@.add_child(child),
{
    ast.children.push(child);
}

/// The child of `ast` at `index`.
pub fn ast_get_child(ast: &Ast, index: u64) -> (child: &Ast)
    requires
        index < ast@.children.len(),
    ensures
        *child == ast@.children[index as int],
{
    let count: usize = ast.children.len();
    assert(index < count);
    let i: usize = index as usize;
    &ast.children[i]
}

/// Removes all children of `ast`.
pub fn ast_clear_children(ast: &mut Ast)
    ensures
        final(ast)@ == old(ast)@.without_children(),
{
    ast.children.clear();
}

/// The number of children of `ast`.
pub fn ast_count_children(ast: &Ast) -> (count: u64)
    ensures
        count == ast@.children.len(),
{
    ast.children.len() as u64
}

/// A fresh node has the given name, no data and no children.
pub proof fn law_ast_new(name: Seq<char>)
    ensures
        (AstView { name, data: Seq::empty(), children: Seq::empty() }).name == name,
        (AstView { name, data: Seq::empty(), children: Seq::empty() }).data.len() == 0,
        (AstView { name, data: Seq::<char>::empty(), children: Seq::empty() }).children.len()
            == 0,
{
}

/// The data read back is the data last written; clearing the data leaves it
/// empty; neither changes the name or the children.
pub proof fn law_ast_data(ast: AstView, d1: Seq<char>, d2: Seq<char>)
    ensures
        ast.with_data(d1).data == d1,
        ast.with_data(d1).with_data(d2) == ast.with_data(d2),
        ast.with_data(Seq::empty()).data.len() == 0,
        ast.with_data(d1).name == ast.name,
        ast.with_data(d1).children == ast.children,
{
}

/// After a child is added, there is one child more, the last one is the
/// added child and the ones before it are unchanged; after the children are
/// cleared there is none. Neither changes the name or the data.
pub proof fn law_ast_children(ast: AstView, child: Ast)
    ensures
        ast.add_child(child).children.len() == ast.children.len() + 1,
        ast.add_child(child).children[ast.children.len() as int] == child,
        forall|i: int|
            0 <= i < ast.children.len() ==> #[trigger] ast.add_child(child).children[i]
                == ast.children[i],
        ast.without_children().children.len() == 0,
        ast.add_child(child).without_children() == ast.without_children(),
        ast.add_child(child).name == ast.name,
        ast.add_child(child).data == ast.data,
        ast.without_children().name == ast.name,
        ast.without_children().data == ast.data,
{
}

} // verus!
