//! Shader descriptions and the GLSL source text generated from them.
use vstd::prelude::*;
use vstd::string::StringExecFns;

use crate::GolemError;

verus! {

/// The number of rows or columns of a vector or matrix.
#[derive(Clone, Copy, Debug, PartialEq, Eq, Structural)]
pub enum Dimension {
    D2,
    D3,
    D4,
}

/// The scalar type of a uniform's components.
#[derive(Clone, Copy, Debug, PartialEq, Eq, Structural)]
pub enum NumberType {
    Int,
    Float,
}

/// A per-vertex input or a value passed between shader stages, with its name.
///
/// All components are floats.
#[derive(Clone, Copy, Debug)]
pub enum Attribute {
    Scalar(&'static str),
    Vector(Dimension, &'static str),
    /// A matrix with the given number of columns and rows.
    Matrix(Dimension, Dimension, &'static str),
}

/// Whether an attribute flows into or out of a shader stage.
#[derive(Clone, Copy, Debug, PartialEq, Eq, Structural)]
pub enum Position {
    Input,
    Output,
}

/// The GLSL type of a uniform.
#[derive(Clone, Copy, Debug, PartialEq, Eq, Structural)]
pub enum UniformType {
    Scalar(NumberType),
    Vector(NumberType, Dimension),
    /// A square matrix of floats.
    Matrix(Dimension),
    Sampler2D,
}

/// A value shared by all invocations of a shader program.
#[derive(Clone, Copy, Debug)]
pub struct Uniform {
    pub name: &'static str,
    pub u_type: UniformType,
}

/// What a shader program is made of: the inputs of each stage, the uniforms
/// and the bodies of the two stages.
///
/// The fragment body writes its colour to `gl_FragColor`.
pub struct ShaderDescription<'a> {
    pub vertex_input: &'a [Attribute],
    pub fragment_input: &'a [Attribute],
    pub uniforms: &'a [Uniform],
    pub vertex_shader: &'a str,
    pub fragment_shader: &'a str,
}

pub open spec fn dimension_value(d: Dimension) -> int {
    match d {
        Dimension::D2 => 2,
        Dimension::D3 => 3,
        Dimension::D4 => 4,
    }
}

pub open spec fn dimension_text(d: Dimension) -> Seq<char> {
    match d {
        Dimension::D2 => "2"@,
        Dimension::D3 => "3"@,
        Dimension::D4 => "4"@,
    }
}

pub open spec fn attribute_name(a: Attribute) -> Seq<char> {
    match a {
        Attribute::Scalar(n) => n@,
        Attribute::Vector(_, n) => n@,
        Attribute::Matrix(_, _, n) => n@,
    }
}

/// The number of float components of an attribute.
pub open spec fn attribute_size(a: Attribute) -> int {
    match a {
        Attribute::Scalar(_) => 1,
        Attribute::Vector(d, _) => dimension_value(d),
        Attribute::Matrix(c, r, _) => dimension_value(c) * dimension_value(r),
    }
}

pub open spec fn attribute_type_text(a: Attribute) -> Seq<char> {
    match a {
        Attribute::Scalar(_) => "float"@,
        Attribute::Vector(d, _) => "vec"@ + dimension_text(d),
        Attribute::Matrix(c, r, _) => "mat"@ + dimension_text(c) + "x"@ + dimension_text(r),
    }
}

pub open spec fn qualifier_text(p: Position) -> Seq<char> {
    match p {
        Position::Input => "in "@,
        Position::Output => "out "@,
    }
}

/// The declaration of one attribute, e.g. `in vec2 position;` and a newline.
pub open spec fn attribute_decl(a: Attribute, p: Position) -> Seq<char> {
    qualifier_text(p) + attribute_type_text(a) + " "@ + attribute_name(a) + ";\n"@
}

/// The declarations of all attributes, in order.
pub open spec fn attribute_decls(s: Seq<Attribute>, p: Position) -> Seq<char>
    decreases s.len(),
{
    if s.len() == 0 {
        Seq::empty()
    } else {
        attribute_decls(s.drop_last(), p) + attribute_decl(s.last(), p)
    }
}

pub open spec fn uniform_type_text(t: UniformType) -> Seq<char> {
    match t {
        UniformType::Scalar(NumberType::Int) => "int"@,
        UniformType::Scalar(NumberType::Float) => "float"@,
        UniformType::Vector(NumberType::Int, d) => "ivec"@ + dimension_text(d),
        UniformType::Vector(NumberType::Float, d) => "vec"@ + dimension_text(d),
        UniformType::Matrix(d) => "mat"@ + dimension_text(d),
        UniformType::Sampler2D => "sampler2D"@,
    }
}

/// The declaration of one uniform, e.g. `uniform mat4 projection;` and a newline.
pub open spec fn uniform_decl(u: Uniform) -> Seq<char> {
    "uniform "@ + uniform_type_text(u.u_type) + " "@ + u.name@ + ";\n"@
}

pub open spec fn uniform_decls(s: Seq<Uniform>) -> Seq<char>
    decreases s.len(),
{
    if s.len() == 0 {
        Seq::empty()
    } else {
        uniform_decls(s.drop_last()) + uniform_decl(s.last())
    }
}

/// The lines that open every generated shader.
pub open spec fn preamble() -> Seq<char> {
    "#version 150\n"@ + "precision mediump float;\n"@
}

/// A complete shader: the preamble, the declarations of the inputs, the
/// outputs and the uniforms, then the body.
pub open spec fn shader_text(
    body: Seq<char>,
    inputs: Seq<Attribute>,
    outputs: Seq<Attribute>,
    uniforms: Seq<Uniform>,
) -> Seq<char> {
    preamble() + attribute_decls(inputs, Position::Input) + attribute_decls(
        outputs,
        Position::Output,
    ) + uniform_decls(uniforms) + body
}

fn dimension_str(d: Dimension) -> (r: &'static str)
    ensures
        r@ == dimension_text(d),
{
    match d {
        Dimension::D2 => "2",
        Dimension::D3 => "3",
        Dimension::D4 => "4",
    }
}

impl Dimension {
    /// The number of rows or columns.
    pub fn value(&self) -> (r: i32)
        ensures
            r == dimension_value(*self),
            2 <= r <= 4,
    {
        match self {
            Dimension::D2 => 2,
            Dimension::D3 => 3,
            Dimension::D4 => 4,
        }
    }
}

impl Attribute {
    pub fn name(&self) -> (r: &'static str)
        ensures
            r@ == attribute_name(*self),
    {
        match self {
            Attribute::Scalar(n) => n,
            Attribute::Vector(_, n) => n,
            Attribute::Matrix(_, _, n) => n,
        }
    }

    /// The number of float components.
    pub fn size(&self) -> (r: i32)
        ensures
            r == attribute_size(*self),
            1 <= r <= 16,
    {
        match self {
            Attribute::Scalar(_) => 1,
            Attribute::Vector(d, _) => d.value(),
            Attribute::Matrix(c, r, _) => {
                let columns: i32 = c.value();
                let rows: i32 = r.value();
                assert(4 <= columns * rows <= 16) by (nonlinear_arith)
                    requires
                        2 <= columns <= 4,
                        2 <= rows <= 4,
                ;
                columns * rows
            },
        }
    }

    /// Appends the declaration of this attribute to `shader`.
    pub fn as_glsl(&self, pos: Position, shader: &mut String)
        ensures
            final(shader)@ == old(shader)@ + attribute_decl(*self, pos),
    {
        match pos {
            Position::Input => shader.append("in "),
            Position::Output => shader.append("out "),
        }
        match self {
            Attribute::Scalar(_) => shader.append("float"),
            Attribute::Vector(d, _) => {
                shader.append("vec");
                shader.append(dimension_str(*d));
            },
            Attribute::Matrix(c, r, _) => {
                shader.append("mat");
                shader.append(dimension_str(*c));
                shader.append("x");
                shader.append(dimension_str(*r));
            },
        }
        shader.append(" ");
        shader.append(self.name());
        shader.append(";\n");
    }
}

impl Uniform {
    /// Appends the declaration of this uniform to `shader`.
    pub fn as_glsl(&self, shader: &mut String)
        ensures
            final(shader)@ == old(shader)@ + uniform_decl(*self),
    {
        shader.append("uniform ");
        match self.u_type {
            UniformType::Scalar(NumberType::Int) => shader.append("int"),
            UniformType::Scalar(NumberType::Float) => shader.append("float"),
            UniformType::Vector(NumberType::Int, d) => {
                shader.append("ivec");
                shader.append(dimension_str(d));
            },
            UniformType::Vector(NumberType::Float, d) => {
                shader.append("vec");
                shader.append(dimension_str(d));
            },
            UniformType::Matrix(d) => {
                shader.append("mat");
                shader.append(dimension_str(d));
            },
            UniformType::Sampler2D => shader.append("sampler2D"),
        }
        shader.append(" ");
        shader.append(self.name);
        shader.append(";\n");
    }
}

/// `s` with every occurrence of `from`, taken from left to right without
/// overlap, replaced by `to`.
pub open spec fn replaced(s: Seq<char>, from: Seq<char>, to: Seq<char>) -> Seq<char>
    decreases s.len(),
{
    if s.len() == 0 {
        s
    } else if 0 < from.len() <= s.len() && s.subrange(0, from.len() as int) == from {
        to + replaced(s.subrange(from.len() as int, s.len() as int), from, to)
    } else {
        seq![s[0]] + replaced(s.drop_first(), from, to)
    }
}

/// Relies on `str::replace`: replaces all matches of a non-empty pattern,
/// scanning from the left.
#[verifier::external_body]
fn replace_text(s: &str, from: &str, to: &str) -> (r: String)
    requires
        from@.len() > 0,
    ensures
        r@ == replaced(s@, from@, to@),
{
    s.replace(from, to)
}

/// Builds a shader from the preamble, the declarations of `inputs`,
/// `outputs` and `uniforms`, and `body`.
pub fn generate_shader_text(
    body: &str,
    inputs: &[Attribute],
    outputs: &[Attribute],
    uniforms: &[Uniform],
) -> (r: String)
    ensures
        r@ == shader_text(body@, inputs@, outputs@, uniforms@),
{
    let mut shader = String::new();
    shader.append("#version 150\n");
    shader.append("precision mediump float;\n");
    let mut i: usize = 0;
    while i < inputs.len()
        invariant
            i <= inputs@.len(),
            shader@ == preamble() + attribute_decls(inputs@.take(i as int), Position::Input),
        decreases inputs@.len() - i,
    {
        inputs[i].as_glsl(Position::Input, &mut shader);
        assert(inputs@.take(i + 1).drop_last() == inputs@.take(i as int));
        i = i + 1;
    }
    assert(inputs@.take(inputs@.len() as int) == inputs@);
    let ghost declared = shader@;
    let mut i: usize = 0;
    while i < outputs.len()
        invariant
            i <= outputs@.len(),
            shader@ == declared + attribute_decls(outputs@.take(i as int), Position::Output),
        decreases outputs@.len() - i,
    {
        outputs[i].as_glsl(Position::Output, &mut shader);
        assert(outputs@.take(i + 1).drop_last() == outputs@.take(i as int));
        i = i + 1;
    }
    assert(outputs@.take(outputs@.len() as int) == outputs@);
    let ghost declared = shader@;
    let mut i: usize = 0;
    while i < uniforms.len()
        invariant
            i <= uniforms@.len(),
            shader@ == declared + uniform_decls(uniforms@.take(i as int)),
        decreases uniforms@.len() - i,
    {
        uniforms[i].as_glsl(&mut shader);
        assert(uniforms@.take(i + 1).drop_last() == uniforms@.take(i as int));
        i = i + 1;
    }
    assert(uniforms@.take(uniforms@.len() as int) == uniforms@);
    shader.append(body);
    shader
}

/// The name under which the fragment stage writes its colour.
pub fn output_color_name() -> (r: &'static str)
    ensures
        r@ == "outputColor"@,
{
    "outputColor"
}

/// The one output of the fragment stage.
pub open spec fn fragment_output() -> Attribute {
    Attribute::Vector(Dimension::D4, "outputColor")
}

/// The fragment body with `gl_FragColor` renamed to the declared output.
pub open spec fn fragment_body(body: Seq<char>) -> Seq<char> {
    replaced(body, "gl_FragColor"@, "outputColor"@)
}

impl<'a> ShaderDescription<'a> {
    /// The source of the vertex stage: it reads the vertex inputs, writes the
    /// fragment inputs and sees the uniforms.
    pub fn vertex_source(&self) -> (r: String)
        ensures
            r@ == shader_text(
                self.vertex_shader@,
                self.vertex_input@,
                self.fragment_input@,
                self.uniforms@,
            ),
    {
        generate_shader_text(self.vertex_shader, self.vertex_input, self.fragment_input, self.uniforms)
    }

    /// The source of the fragment stage: it reads the fragment inputs, writes
    /// the colour output and sees the uniforms.
    pub fn fragment_source(&self) -> (r: String)
        ensures
            r@ == shader_text(
                fragment_body(self.fragment_shader@),
                self.fragment_input@,
                seq![fragment_output()],
                self.uniforms@,
            ),
    {
        proof {
            reveal_strlit("gl_FragColor");
        }
        let body = replace_text(self.fragment_shader, "gl_FragColor", output_color_name());
        let outputs = [Attribute::Vector(Dimension::D4, "outputColor")];
        assert(outputs@ =~= seq![fragment_output()]);
        let r = generate_shader_text(body.as_str(), self.fragment_input, &outputs, self.uniforms);
        r
    }
}

/// The number of float components of a run of attributes.
pub open spec fn total_size(s: Seq<Attribute>) -> int
    decreases s.len(),
{
    if s.len() == 0 {
        0
    } else {
        total_size(s.drop_last()) + attribute_size(s.last())
    }
}

/// Each attribute adds at least one component, so a longer prefix has at
/// least as many more components as it has more attributes.
pub proof fn lemma_total_size_prefix(s: Seq<Attribute>, i: int, j: int)
    requires
        0 <= i <= j <= s.len(),
    ensures
        total_size(s.take(i)) + (j - i) <= total_size(s.take(j)),
    decreases j - i,
{
    if i < j {
        lemma_total_size_prefix(s, i, j - 1);
        assert(s.take(j).drop_last() == s.take(j - 1));
    }
}

/// The bytes of one float component.
pub const FLOAT_BYTES: i32 = 4;

/// Where the driver finds one attribute inside an interleaved vertex.
#[derive(Clone, Copy, Debug, PartialEq, Eq, Structural)]
pub struct AttributePointer {
    /// The attribute location, which is the attribute's index.
    pub location: u32,
    /// The number of float components.
    pub size: i32,
    /// The byte offset from the start of the vertex.
    pub offset: i32,
}

/// How the vertices of a buffer are laid out for a program's inputs: one
/// vertex holds every input in order, as floats, without padding.
pub struct VertexLayout {
    /// The bytes of one vertex.
    pub stride: i32,
    pub pointers: Vec<AttributePointer>,
}

/// The pointer that the layout gives to the attribute at `i`.
pub open spec fn pointer_at(input: Seq<Attribute>, i: int) -> AttributePointer {
    AttributePointer {
        location: i as u32,
        size: attribute_size(input[i]) as i32,
        offset: (FLOAT_BYTES * total_size(input.take(i))) as i32,
    }
}

/// Whether the bytes of one vertex can be told to the driver, which takes
/// strides and offsets as `i32`.
pub open spec fn layout_fits(input: Seq<Attribute>) -> bool {
    FLOAT_BYTES * total_size(input) <= i32::MAX
}

/// Within a layout that fits, each attribute ends where the next begins and
/// the last ends at the size of the vertex.
pub proof fn lemma_pointer_extent(input: Seq<Attribute>, i: int)
    requires
        layout_fits(input),
        0 <= i < input.len(),
    ensures
        pointer_at(input, i).offset + FLOAT_BYTES * pointer_at(input, i).size == FLOAT_BYTES
            * total_size(input.take(i + 1)),
        i + 1 < input.len() ==> pointer_at(input, i + 1).offset == FLOAT_BYTES * total_size(
            input.take(i + 1),
        ),
        i + 1 == input.len() ==> total_size(input.take(i + 1)) == total_size(input),
{
    lemma_total_size_prefix(input, 0, i);
    lemma_total_size_prefix(input, i + 1, input.len() as int);
    assert(input.take(0) == Seq::<Attribute>::empty());
    assert(input.take(i + 1).drop_last() == input.take(i));
    assert(input.take(input.len() as int) == input);
    if i + 1 < input.len() {
        lemma_total_size_prefix(input, i + 2, input.len() as int);
        assert(input.take(i + 2).drop_last() == input.take(i + 1));
    }
}

/// Lays out the inputs of a program as interleaved floats, each attribute at
/// the location of its index. Fails when a vertex is too large for the driver.
pub fn vertex_layout(input: &[Attribute]) -> (r: Result<VertexLayout, GolemError>)
    ensures
        r is Ok <==> layout_fits(input@),
        r is Err ==> r->Err_0 is ContextError,
        r matches Ok(layout) ==> {
            &&& layout.stride == FLOAT_BYTES * total_size(input@)
            &&& layout.pointers@.len() == input@.len()
            &&& forall|i: int|
                0 <= i < input@.len() ==> #[trigger] layout.pointers@[i] == pointer_at(input@, i)
            &&& input@.len() > 0 ==> layout.pointers@[0].offset == 0
            &&& forall|i: int|
                0 <= i < input@.len() ==> {
                    let end = layout.pointers@[i].offset + FLOAT_BYTES * #[trigger] layout.pointers@[i].size;
                    &&& i + 1 < input@.len() ==> end == layout.pointers@[i + 1].offset
                    &&& i + 1 == input@.len() ==> end == layout.stride
                }
        },
{
    let mut total: i32 = 0;
    let mut i: usize = 0;
    while i < input.len()
        invariant
            i <= input@.len(),
            total == total_size(input@.take(i as int)),
            0 <= total,
            FLOAT_BYTES * total <= i32::MAX,
        decreases input@.len() - i,
    {
        let size = input[i].size();
        assert(input@.take(i + 1).drop_last() == input@.take(i as int));
        if total > i32::MAX / FLOAT_BYTES - size {
            proof {
                lemma_total_size_prefix(input@, i + 1, input@.len() as int);
                assert(input@.take(input@.len() as int) == input@);
            }
            return Err(GolemError::ContextError(String::from_str("vertex layout too large")));
        }
        total = total + size;
        i = i + 1;
    }
    assert(input@.take(input@.len() as int) == input@);
    let mut pointers: Vec<AttributePointer> = Vec::new();
    let mut components: i32 = 0;
    let mut i: usize = 0;
    while i < input.len()
        invariant
            i <= input@.len(),
            total == total_size(input@),
            FLOAT_BYTES * total <= i32::MAX,
            components == total_size(input@.take(i as int)),
            0 <= components <= total,
            pointers@.len() == i,
            forall|k: int| 0 <= k < i ==> #[trigger] pointers@[k] == pointer_at(input@, k),
        decreases input@.len() - i,
    {
        proof {
            lemma_total_size_prefix(input@, 0, i + 1);
            lemma_total_size_prefix(input@, i + 1, input@.len() as int);
            assert(input@.take(0) == Seq::<Attribute>::empty());
            assert(input@.take(input@.len() as int) == input@);
            assert(input@.take(i + 1).drop_last() == input@.take(i as int));
        }
        let size = input[i].size();
        pointers.push(AttributePointer {
            location: i as u32,
            size,
            offset: FLOAT_BYTES * components,
        });
        components = components + size;
        i = i + 1;
    }
    proof {
        assert(input@.take(0) == Seq::<Attribute>::empty());
        assert forall|i: int| 0 <= i < input@.len() implies {
            let end = pointers@[i].offset + FLOAT_BYTES * #[trigger] pointers@[i].size;
            &&& i + 1 < input@.len() ==> end == pointers@[i + 1].offset
            &&& i + 1 == input@.len() ==> end == FLOAT_BYTES * total
        } by {
            lemma_pointer_extent(input@, i);
        }
    }
    Ok(VertexLayout { stride: FLOAT_BYTES * total, pointers })
}

} // verus!
