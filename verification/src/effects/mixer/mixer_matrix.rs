use vstd::prelude::*;

verus! {

/// The level at which each input channel is mixed into each output channel;
/// `L` is the type of a level
pub struct MixerMatrix<L> {
    input_count: usize,
    rows: Vec<Vec<L>>,
}

impl<L> MixerMatrix<L> {
    /// One row per output channel, each with one level per input channel
    #[verifier::type_invariant]
    closed spec fn inv(&self) -> bool {
        forall|output: int| 0 <= output < self.rows@.len() ==> (#[trigger] self.rows@[output])@.len() == self.input_count
    }

    /// The number of input channels
    pub closed spec fn spec_input_count(&self) -> usize {
        self.input_count
    }

    /// The levels: `self@[output][input]` is the level of `input` in `output`
    pub closed spec fn levels(&self) -> Seq<Seq<L>> {
        self.rows@.map_values(|row: Vec<L>| row@)
    }

    /// The number of input channels
    pub fn input_count(&self) -> (count: usize)
        ensures
            count == self.spec_input_count(),
    {
        self.input_count
    }

    /// The number of output channels
    pub fn output_count(&self) -> (count: usize)
        ensures
            count == self.levels().len(),
    {
        self.rows.len()
    }
}

/// A matrix of `output_count` rows of `input_count` copies of `level`
pub open spec fn filled_levels<L>(input_count: nat, output_count: nat, level: L) -> Seq<Seq<L>> {
    Seq::new(output_count, |output: int| Seq::new(input_count, |input: int| level))
}

/// `row` with the level of `input` replaced by `level`
fn updated_row<L: Copy>(row: &Vec<L>, input: usize, level: L) -> (updated: Vec<L>)
    requires
        input < row@.len(),
    ensures
        updated@ == row@.update(input as int, level),
{
    let mut updated: Vec<L> = Vec::new();
    let mut index: usize = 0;
    while index < row.len()
        invariant
            index <= row@.len(),
            input < row@.len(),
            updated@ == row@.update(input as int, level).take(index as int),
        decreases row@.len() - index,
    {
        let value = if index == input { level } else { row[index] };
        updated.push(value);
        index = index + 1;
        assert(updated@ =~= row@.update(input as int, level).take(index as int));
    }
    assert(row@.update(input as int, level).take(row@.len() as int) =~= row@.update(input as int, level));
    updated
}

/// A copy of `row`
fn copied_row<L: Copy>(row: &Vec<L>) -> (copy: Vec<L>)
    ensures
        copy@ == row@,
{
    let mut copy: Vec<L> = Vec::new();
    let mut index: usize = 0;
    while index < row.len()
        invariant
            index <= row@.len(),
            copy@ == row@.take(index as int),
        decreases row@.len() - index,
    {
        copy.push(row[index]);
        index = index + 1;
        assert(copy@ =~= row@.take(index as int));
    }
    assert(row@.take(row@.len() as int) =~= row@);
    copy
}

impl<L: Copy> MixerMatrix<L> {
    /// A matrix of `input_count` inputs and `output_count` outputs, every
    /// level `level`
    pub fn filled(input_count: usize, output_count: usize, level: L) -> (matrix: Self)
        ensures
            matrix.spec_input_count() == input_count,
            matrix.levels() == filled_levels(input_count as nat, output_count as nat, level),
    {
        let mut rows: Vec<Vec<L>> = Vec::new();
        let mut output: usize = 0;
        while output < output_count
            invariant
                output <= output_count,
                rows@.len() == output,
                forall|o: int| 0 <= o < output ==> (#[trigger] rows@[o])@ == Seq::new(input_count as nat, |input: int| level),
            decreases output_count - output,
        {
            let mut row: Vec<L> = Vec::new();
            let mut input: usize = 0;
            while input < input_count
                invariant
                    input <= input_count,
                    row@ == Seq::new(input as nat, |i: int| level),
                decreases input_count - input,
            {
                row.push(level);
                input = input + 1;
                assert(row@ =~= Seq::new(input as nat, |i: int| level));
            }
            rows.push(row);
            output = output + 1;
        }
        let matrix = Self { input_count, rows };
        assert(matrix.levels() =~= filled_levels(input_count as nat, output_count as nat, level));
        matrix
    }

    /// Set the level of `input_channel` in `output_channel`
    pub fn set_level(&mut self, input_channel: usize, output_channel: usize, level: L)
        requires
            input_channel < old(self).spec_input_count(),
            output_channel < old(self).levels().len(),
        ensures
            final(self).spec_input_count() == old(self).spec_input_count(),
            final(self).levels() == old(self).levels().update(
                output_channel as int,
                old(self).levels()[output_channel as int].update(input_channel as int, level),
            ),
    {
        proof {
            use_type_invariant(&*self);
        }
        let row = updated_row(&self.rows[output_channel], input_channel, level);
        let ghost old_rows = self.rows@;
        let mut rows: Vec<Vec<L>> = Vec::new();
        std::mem::swap(&mut rows, &mut self.rows);
        rows.set(output_channel, row);
        self.rows = rows;
        proof {
            assert(self.rows@ == old_rows.update(output_channel as int, row));
            assert(self.levels() =~= old(self).levels().update(
                output_channel as int,
                old(self).levels()[output_channel as int].update(input_channel as int, level),
            ));
        }
    }

    /// The level of `input_channel` in `output_channel`
    pub fn get_level(&self, input_channel: usize, output_channel: usize) -> (level: L)
        requires
            input_channel < self.spec_input_count(),
            output_channel < self.levels().len(),
        ensures
            level == self.levels()[output_channel as int][input_channel as int],
    {
        proof {
            use_type_invariant(self);
        }
        self.rows[output_channel][input_channel]
    }

    /// A copy of the matrix
    pub fn duplicate(&self) -> (copy: Self)
        ensures
            copy.spec_input_count() == self.spec_input_count(),
            copy.levels() == self.levels(),
    {
        proof {
            use_type_invariant(self);
        }
        let mut rows: Vec<Vec<L>> = Vec::new();
        let mut output: usize = 0;
        while output < self.rows.len()
            invariant
                output <= self.rows@.len(),
                rows@.len() == output,
                forall|o: int| 0 <= o < self.rows@.len() ==> (#[trigger] self.rows@[o])@.len() == self.input_count,
                forall|o: int| 0 <= o < output ==> (#[trigger] rows@[o])@ == self.rows@[o]@,
            decreases self.rows@.len() - output,
        {
            let row = copied_row(&self.rows[output]);
            rows.push(row);
            output = output + 1;
        }
        let copy = Self { input_count: self.input_count, rows };
        assert(copy.levels() =~= self.levels());
        copy
    }
}

} // verus!
