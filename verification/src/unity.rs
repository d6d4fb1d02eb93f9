//! C# bindings for the Unity SDK, written from the composites of a contract.

use vstd::prelude::*;
use vstd::string::StringExecFns;

verus! {

/// Why the plugin writes no bindings.
#[derive(Debug)]
pub enum UnityPluginError {
    /// A type that the plugin has no C# type for, by its path.
    InvalidType(String),
}

impl UnityPluginError {
    pub open spec fn spec_message(&self) -> Seq<char> {
        match self {
            UnityPluginError::InvalidType(type_path) => "Invalid type: "@ + type_path@,
        }
    }

    /// The error in words.
    pub fn message(&self) -> (text: String)
        ensures
            text@ == self.spec_message(),
    {
        match self {
            UnityPluginError::InvalidType(type_path) => {
                let mut text = String::from_str("Invalid type: ");
                text.append(type_path.as_str());
                text
            },
        }
    }
}

/// A member of a composite: its name and the name of its type.
#[derive(Debug, Clone)]
pub struct Member {
    pub name: String,
    /// The name of the member's type.
    pub ty: String,
    /// Whether the member's type is itself a composite.
    pub composite: bool,
}

/// A struct of a contract.
#[derive(Debug, Clone)]
pub struct Composite {
    pub name: String,
    pub inners: Vec<Member>,
}

/// A member as a mathematical value.
pub struct MemberView {
    pub name: Seq<char>,
    pub ty: Seq<char>,
    pub composite: bool,
}

/// A composite as a mathematical value.
pub struct CompositeView {
    pub name: Seq<char>,
    pub inners: Seq<MemberView>,
}

impl View for Member {
    type V = MemberView;

    open spec fn view(&self) -> MemberView {
        MemberView { name: self.name@, ty: self.ty@, composite: self.composite }
    }
}

impl View for Composite {
    type V = CompositeView;

    open spec fn view(&self) -> CompositeView {
        CompositeView {
            name: self.name@,
            inners: self.inners@.map_values(|m: Member| m@),
        }
    }
}

/// The C# type that the Unity SDK has for a Cairo type; any other name stays.
pub open spec fn mapped_type(name: Seq<char>) -> Seq<char> {
    if name == "u8"@ {
        "byte"@
    } else if name == "u16"@ {
        "ushort"@
    } else if name == "u32"@ {
        "uint"@
    } else if name == "u64"@ {
        "ulong"@
    } else if name == "u128"@ {
        "Span<byte>"@
    } else if name == "u256"@ {
        "Span<ulong>"@
    } else if name == "usize"@ {
        "uint"@
    } else if name == "felt252"@ {
        "FieldElement"@
    } else if name == "ClassHash"@ {
        "FieldElement"@
    } else if name == "ContractAddress"@ {
        "FieldElement"@
    } else {
        name
    }
}

/// `parts` in a row, with `separator` between each two.
pub open spec fn joined(parts: Seq<Seq<char>>, separator: Seq<char>) -> Seq<char>
    decreases parts.len(),
{
    if parts.len() == 0 {
        Seq::empty()
    } else if parts.len() == 1 {
        parts[0]
    } else {
        joined(parts.drop_last(), separator) + separator + parts.last()
    }
}

/// The line of a member in a C# struct.
pub open spec fn struct_member(member: MemberView) -> Seq<char> {
    "public "@ + mapped_type(member.ty) + " "@ + member.name + ";"@
}

/// The lines of the members of a C# struct.
pub open spec fn struct_members(inners: Seq<MemberView>) -> Seq<Seq<char>> {
    inners.map_values(|m: MemberView| struct_member(m))
}

/// The C# struct for a composite.
pub open spec fn struct_text(token: CompositeView) -> Seq<char> {
    "\n[Serializable]\npublic struct "@ + token.name + " {\n    "@ + joined(
        struct_members(token.inners),
        "\n    "@,
    ) + "\n}\n"@
}

/// The lines of a member in a C# model class.
pub open spec fn model_member(member: MemberView) -> Seq<char> {
    "[ModelField(\""@ + member.name + "\")]\n    public "@ + mapped_type(member.ty) + " "@
        + member.name + ";"@
}

/// The lines of the members of a C# model class.
pub open spec fn model_members(inners: Seq<MemberView>) -> Seq<Seq<char>> {
    inners.map_values(|m: MemberView| model_member(m))
}

/// The C# model class for a composite.
pub open spec fn class_text(token: CompositeView) -> Seq<char> {
    "\npublic class "@ + token.name + " : ModelInstance {\n    "@ + joined(
        model_members(token.inners),
        "\n\n    "@,
    )
        + "\n\n    // Start is called before the first frame update\n    void Start() {\n    }\n\n    // Update is called once per frame\n    void Update() {\n    }\n}\n        "@
}

/// The strings of a list as mathematical values.
pub open spec fn texts(lines: Seq<String>) -> Seq<Seq<char>> {
    lines.map_values(|line: String| line@)
}

/// The composites of a list as mathematical values.
pub open spec fn composites(tokens: Seq<Composite>) -> Seq<CompositeView> {
    tokens.map_values(|token: Composite| token@)
}

/// The C# structs for those of `structs` that are named `name`, in their order.
pub open spec fn structs_named(name: Seq<char>, structs: Seq<CompositeView>) -> Seq<char>
    decreases structs.len(),
{
    if structs.len() == 0 {
        Seq::empty()
    } else {
        structs_named(name, structs.drop_last()) + if structs.last().name == name {
            struct_text(structs.last())
        } else {
            Seq::empty()
        }
    }
}

/// The C# structs for the members whose type is a composite: for each such
/// member in turn, the structs that are named as its type is.
pub open spec fn member_structs(inners: Seq<MemberView>, structs: Seq<CompositeView>) -> Seq<char>
    decreases inners.len(),
{
    if inners.len() == 0 {
        Seq::empty()
    } else {
        member_structs(inners.drop_last(), structs) + if inners.last().composite {
            structs_named(inners.last().ty, structs)
        } else {
            Seq::empty()
        }
    }
}

/// The C# file for a model: the imports, the structs of its members, and its class.
pub open spec fn model_text(token: CompositeView, structs: Seq<CompositeView>) -> Seq<char> {
    "using System;\n"@ + "using Dojo;\n"@ + "using Dojo.Starknet;\n"@ + member_structs(
        token.inners,
        structs,
    ) + "\n\n"@ + class_text(token)
}

/// The C# files for those of `tokens` whose name is among `models`, in their order.
pub open spec fn bindings(
    tokens: Seq<CompositeView>,
    structs: Seq<CompositeView>,
    models: Seq<Seq<char>>,
) -> Seq<Seq<char>>
    decreases tokens.len(),
{
    if tokens.len() == 0 {
        Seq::empty()
    } else {
        bindings(tokens.drop_last(), structs, models) + if models.contains(tokens.last().name) {
            seq![model_text(tokens.last(), structs)]
        } else {
            Seq::empty()
        }
    }
}

fn same(a: &str, b: &str) -> (r: bool)
    ensures
        r == (a@ == b@),
{
    a.to_owned() == b.to_owned()
}

/// The plugin that writes the bindings for Unity.
#[derive(Debug)]
pub struct UnityPlugin {}

impl UnityPlugin {
    pub fn new() -> (plugin: Self)
        ensures
            plugin == (UnityPlugin {  }),
    {
        Self {  }
    }

    /// Maps cairo types to C#/Unity SDK defined types
    pub fn map_type(name: &str) -> (r: Result<String, UnityPluginError>)
        ensures
            r matches Ok(mapped) && mapped@ == mapped_type(name@),
    {
        if same(name, "u8") {
            Ok(String::from_str("byte"))
        } else if same(name, "u16") {
            Ok(String::from_str("ushort"))
        } else if same(name, "u32") {
            Ok(String::from_str("uint"))
        } else if same(name, "u64") {
            Ok(String::from_str("ulong"))
        } else if same(name, "u128") {
            Ok(String::from_str("Span<byte>"))
        } else if same(name, "u256") {
            Ok(String::from_str("Span<ulong>"))
        } else if same(name, "usize") {
            Ok(String::from_str("uint"))
        } else if same(name, "felt252") {
            Ok(String::from_str("FieldElement"))
        } else if same(name, "ClassHash") {
            Ok(String::from_str("FieldElement"))
        } else if same(name, "ContractAddress") {
            Ok(String::from_str("FieldElement"))
        } else {
            Ok(String::from_str(name))
        }
    }
}

fn join(lines: &Vec<String>, separator: &str) -> (out: String)
    ensures
        out@ == joined(texts(lines@), separator@),
{
    let mut out = String::new();
    let mut i: usize = 0;
    while i < lines.len()
        invariant
            i <= lines.len(),
            out@ == joined(texts(lines@).take(i as int), separator@),
        decreases lines.len() - i,
    {
        if i > 0 {
            out.append(separator);
        }
        out.append(lines[i].as_str());
        proof {
            let parts = texts(lines@);
            assert(parts.take(i + 1).drop_last() =~= parts.take(i as int));
            assert(parts.take(i + 1).last() == lines@[i as int]@);
            if i == 0 {
                assert(out@ =~= lines@[0]@);
            }
        }
        i += 1;
    }
    proof {
        assert(texts(lines@).take(lines.len() as int) =~= texts(lines@));
    }
    out
}

fn contains(names: &Vec<String>, name: &str) -> (found: bool)
    ensures
        found == texts(names@).contains(name@),
{
    let mut i: usize = 0;
    while i < names.len()
        invariant
            i <= names.len(),
            forall|j: int| 0 <= j < i ==> texts(names@)[j] != name@,
        decreases names.len() - i,
    {
        if same(names[i].as_str(), name) {
            assert(texts(names@)[i as int] == name@);
            return true;
        }
        i += 1;
    }
    false
}

impl UnityPlugin {
    /// Token should be a struct
    /// This will be formatted into a C# struct
    /// using C# and unity SDK types
    pub fn format_struct(token: &Composite) -> (r: Result<String, UnityPluginError>)
        ensures
            r matches Ok(text) && text@ == struct_text(token@),
    {
        let mut fields: Vec<String> = Vec::new();
        let mut i: usize = 0;
        while i < token.inners.len()
            invariant
                i <= token.inners.len(),
                fields@.len() == i,
                token@.inners.len() == token.inners.len(),
                texts(fields@) == struct_members(token@.inners.take(i as int)),
            decreases token.inners.len() - i,
        {
            let field = &token.inners[i];
            let mapped = match Self::map_type(field.ty.as_str()) {
                Ok(mapped) => mapped,
                Err(e) => {
                    return Err(e);
                },
            };
            let mut line = String::from_str("public ");
            line.append(mapped.as_str());
            line.append(" ");
            line.append(field.name.as_str());
            line.append(";");
            let ghost before = fields@;
            let ghost text = line@;
            fields.push(line);
            proof {
                assert(token@.inners[i as int] == field@);
                assert(text == struct_member(field@));
                let wanted = struct_members(token@.inners.take(i + 1));
                assert(texts(fields@).len() == wanted.len());
                assert forall|j: int| 0 <= j < wanted.len() implies texts(fields@)[j]
                    == wanted[j] by {
                    if j < i {
                        assert(texts(fields@)[j] == texts(before)[j]);
                        assert(wanted[j] == struct_members(token@.inners.take(i as int))[j]);
                    }
                }
                assert(texts(fields@) =~= wanted);
            }
            i += 1;
        }
        proof {
            assert(token@.inners.take(token.inners.len() as int) =~= token@.inners);
        }
        let mut text = String::from_str("\n[Serializable]\npublic struct ");
        text.append(token.name.as_str());
        text.append(" {\n    ");
        text.append(join(&fields, "\n    ").as_str());
        text.append("\n}\n");
        Ok(text)
    }

    pub fn format_model(token: &Composite) -> (r: Result<String, UnityPluginError>)
        ensures
            r matches Ok(text) && text@ == class_text(token@),
    {
        let mut fields: Vec<String> = Vec::new();
        let mut i: usize = 0;
        while i < token.inners.len()
            invariant
                i <= token.inners.len(),
                fields@.len() == i,
                token@.inners.len() == token.inners.len(),
                texts(fields@) == model_members(token@.inners.take(i as int)),
            decreases token.inners.len() - i,
        {
            let field = &token.inners[i];
            let mapped = match Self::map_type(field.ty.as_str()) {
                Ok(mapped) => mapped,
                Err(e) => {
                    return Err(e);
                },
            };
            let mut line = String::from_str("[ModelField(\"");
            line.append(field.name.as_str());
            line.append("\")]\n    public ");
            line.append(mapped.as_str());
            line.append(" ");
            line.append(field.name.as_str());
            line.append(";");
            let ghost before = fields@;
            let ghost text = line@;
            fields.push(line);
            proof {
                assert(token@.inners[i as int] == field@);
                assert(text == model_member(field@));
                let wanted = model_members(token@.inners.take(i + 1));
                assert(texts(fields@).len() == wanted.len());
                assert forall|j: int| 0 <= j < wanted.len() implies texts(fields@)[j]
                    == wanted[j] by {
                    if j < i {
                        assert(texts(fields@)[j] == texts(before)[j]);
                        assert(wanted[j] == model_members(token@.inners.take(i as int))[j]);
                    }
                }
                assert(texts(fields@) =~= wanted);
            }
            i += 1;
        }
        proof {
            assert(token@.inners.take(token.inners.len() as int) =~= token@.inners);
        }
        let mut text = String::from_str("\npublic class ");
        text.append(token.name.as_str());
        text.append(" : ModelInstance {\n    ");
        text.append(join(&fields, "\n\n    ").as_str());
        text.append(
            "\n\n    // Start is called before the first frame update\n    void Start() {\n    }\n\n    // Update is called once per frame\n    void Update() {\n    }\n}\n        ",
        );
        Ok(text)
    }

    /// The C# file for the model `token`, whose members' types are looked up in `structs`.
    pub fn handle_model(&self, token: &Composite, structs: &Vec<Composite>) -> (r: Result<
        String,
        UnityPluginError,
    >)
        ensures
            r matches Ok(text) && text@ == model_text(token@, composites(structs@)),
    {
        let mut out = String::new();
        out.append("using System;\n");
        out.append("using Dojo;\n");
        out.append("using Dojo.Starknet;\n");
        let ghost head = out@;
        let ghost all = composites(structs@);
        proof {
            assert(head =~= "using System;\n"@ + "using Dojo;\n"@ + "using Dojo.Starknet;\n"@);
            assert(head + member_structs(token@.inners.take(0), all) =~= head);
        }
        let mut i: usize = 0;
        while i < token.inners.len()
            invariant
                i <= token.inners.len(),
                all == composites(structs@),
                out@ == head + member_structs(token@.inners.take(i as int), all),
            decreases token.inners.len() - i,
        {
            let field = &token.inners[i];
            let ghost before = out@;
            if field.composite {
                let mut j: usize = 0;
                proof {
                    assert(before + structs_named(field@.ty, all.take(0)) =~= before);
                }
                while j < structs.len()
                    invariant
                        j <= structs.len(),
                        all == composites(structs@),
                        out@ == before + structs_named(field@.ty, all.take(j as int)),
                    decreases structs.len() - j,
                {
                    let struct_token = &structs[j];
                    let ghost so_far = out@;
                    if struct_token.name == field.ty {
                        match Self::format_struct(struct_token) {
                            Ok(text) => out.append(text.as_str()),
                            Err(e) => {
                                return Err(e);
                            },
                        }
                    }
                    proof {
                        assert(all.take(j + 1).drop_last() =~= all.take(j as int));
                        assert(all.take(j + 1).last() == struct_token@);
                        assert(out@ =~= before + structs_named(field@.ty, all.take(j + 1)));
                    }
                    j += 1;
                }
                proof {
                    assert(all.take(structs.len() as int) =~= all);
                }
            }
            proof {
                let inners = token@.inners;
                assert(inners.take(i + 1).drop_last() =~= inners.take(i as int));
                assert(inners.take(i + 1).last() == field@);
                assert(out@ =~= head + member_structs(inners.take(i + 1), all));
            }
            i += 1;
        }
        proof {
            assert(token@.inners.take(token.inners.len() as int) =~= token@.inners);
        }
        out.append("\n\n");
        match Self::format_model(token) {
            Ok(text) => out.append(text.as_str()),
            Err(e) => {
                return Err(e);
            },
        }
        Ok(out)
    }

    /// The C# files for the models of a contract: one for each of `structs`
    /// whose name is among `models`, in the order of `structs`.
    pub fn generate_systems_bindings(&self, structs: &Vec<Composite>, models: &Vec<String>) -> (r:
        Result<Vec<String>, UnityPluginError>)
        ensures
            r matches Ok(files) && texts(files@) == bindings(
                composites(structs@),
                composites(structs@),
                texts(models@),
            ),
    {
        let mut files: Vec<String> = Vec::new();
        let ghost all = composites(structs@);
        let mut i: usize = 0;
        proof {
            assert(texts(files@) =~= bindings(all.take(0), all, texts(models@)));
        }
        while i < structs.len()
            invariant
                i <= structs.len(),
                all == composites(structs@),
                texts(files@) == bindings(all.take(i as int), all, texts(models@)),
            decreases structs.len() - i,
        {
            let token = &structs[i];
            if contains(models, token.name.as_str()) {
                match self.handle_model(token, structs) {
                    Ok(text) => files.push(text),
                    Err(e) => {
                        return Err(e);
                    },
                }
            }
            proof {
                assert(all.take(i + 1).drop_last() =~= all.take(i as int));
                assert(all.take(i + 1).last() == token@);
                assert(texts(files@) =~= bindings(all.take(i + 1), all, texts(models@)));
            }
            i += 1;
        }
        proof {
            assert(all.take(structs.len() as int) =~= all);
        }
        Ok(files)
    }
}

} // verus!
