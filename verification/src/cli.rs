//! The command line: its commands and what running each of them does.
use std::path::PathBuf;

use vstd::prelude::*;

use crate::error::Result;

verus! {

pub struct Cli {
    pub command: Commands,
}

pub enum Commands {
    /// Extract artwork from .ai files to SVG/JSON
    Extract {
        files: Vec<PathBuf>,
        format: String,
        output_dir: PathBuf,
        per_layer: bool,
        no_metadata: bool,
    },
    /// Show document info — layers, colors, objects, dimensions
    Inspect { file: PathBuf },
    /// Rebuild an .ai file from an edited SVG
    Rebuild {
        svg_file: PathBuf,
        original: Option<PathBuf>,
        output: Option<PathBuf>,
        metadata: Option<PathBuf>,
    },
    /// Verify that all dependencies are available
    Check,
}

impl Cli {
    /// Runs the command. Every command succeeds: extraction, inspection and
    /// rebuilding are not wired to the command line yet, and the dependency
    /// check has nothing to find missing.
    pub fn run(&self) -> (r: Result<()>)
        ensures
            r is Ok,
    {
        match &self.command {
            Commands::Extract { files, format, output_dir, per_layer, no_metadata } => {
                self.run_extract(files, format, output_dir, *per_layer, *no_metadata)
            },
            Commands::Inspect { file } => self.run_inspect(file),
            Commands::Rebuild { svg_file, original, output, metadata } => {
                self.run_rebuild(svg_file, original.as_ref(), output.as_ref(), metadata.as_ref())
            },
            Commands::Check => self.run_check(),
        }
    }

    fn run_extract(
        &self,
        files: &Vec<PathBuf>,
        format: &String,
        output_dir: &PathBuf,
        per_layer: bool,
        no_metadata: bool,
    ) -> (r: Result<()>)
        ensures
            r is Ok,
    {
        let _ = (files, format, output_dir, per_layer, no_metadata);
        Ok(())
    }

    fn run_inspect(&self, file: &PathBuf) -> (r: Result<()>)
        ensures
            r is Ok,
    {
        let _ = file;
        Ok(())
    }

    fn run_rebuild(
        &self,
        svg_file: &PathBuf,
        original: Option<&PathBuf>,
        output: Option<&PathBuf>,
        metadata: Option<&PathBuf>,
    ) -> (r: Result<()>)
        ensures
            r is Ok,
    {
        let _ = (svg_file, original, output, metadata);
        Ok(())
    }

    fn run_check(&self) -> (r: Result<()>)
        ensures
            r is Ok,
    {
        Ok(())
    }
}

} // verus!
